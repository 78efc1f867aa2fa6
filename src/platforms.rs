use vstd::prelude::*;

use crate::errors::OdesliError;
use crate::text::same_text;

verus! {

/// A streaming platform or store that a link can point to.
#[derive(Clone, Copy, Debug, PartialEq, Eq, Hash, Structural)]
pub enum Platform {
    Spotify,
    #[allow(non_camel_case_types)]
    iTunes,
    AppleMusic,
    YouTube,
    YouTubeMusic,
    Google,
    GoogleStore,
    Pandora,
    Deezer,
    Tidal,
    AmazonStore,
    AmazonMusic,
    SoundCloud,
    Napster,
    Yandex,
    Spinrilla,
    Audius,
    Anghami,
    Boomplay,
    Audiomack,
    Bandcamp,
}

impl Platform {
    /// The token that stands for this value on the wire.
    pub open spec fn wire(self) -> Seq<char> {
        match self {
            Platform::Spotify => "spotify"@,
            Platform::iTunes => "itunes"@,
            Platform::AppleMusic => "appleMusic"@,
            Platform::YouTube => "youtube"@,
            Platform::YouTubeMusic => "youtubeMusic"@,
            Platform::Google => "google"@,
            Platform::GoogleStore => "googleStore"@,
            Platform::Pandora => "pandora"@,
            Platform::Deezer => "deezer"@,
            Platform::Tidal => "tidal"@,
            Platform::AmazonStore => "amazonStore"@,
            Platform::AmazonMusic => "amazonMusic"@,
            Platform::SoundCloud => "soundcloud"@,
            Platform::Napster => "napster"@,
            Platform::Yandex => "yandex"@,
            Platform::Spinrilla => "spinrilla"@,
            Platform::Audius => "audius"@,
            Platform::Anghami => "anghami"@,
            Platform::Boomplay => "boomplay"@,
            Platform::Audiomack => "audiomack"@,
            Platform::Bandcamp => "bandcamp"@,
        }
    }

    /// The value whose wire token is `s`, if there is one.
    pub open spec fn from_wire(s: Seq<char>) -> Option<Platform> {
        if s == "spotify"@ {
            Some(Platform::Spotify)
        } else if s == "itunes"@ {
            Some(Platform::iTunes)
        } else if s == "appleMusic"@ {
            Some(Platform::AppleMusic)
        } else if s == "youtube"@ {
            Some(Platform::YouTube)
        } else if s == "youtubeMusic"@ {
            Some(Platform::YouTubeMusic)
        } else if s == "google"@ {
            Some(Platform::Google)
        } else if s == "googleStore"@ {
            Some(Platform::GoogleStore)
        } else if s == "pandora"@ {
            Some(Platform::Pandora)
        } else if s == "deezer"@ {
            Some(Platform::Deezer)
        } else if s == "tidal"@ {
            Some(Platform::Tidal)
        } else if s == "amazonStore"@ {
            Some(Platform::AmazonStore)
        } else if s == "amazonMusic"@ {
            Some(Platform::AmazonMusic)
        } else if s == "soundcloud"@ {
            Some(Platform::SoundCloud)
        } else if s == "napster"@ {
            Some(Platform::Napster)
        } else if s == "yandex"@ {
            Some(Platform::Yandex)
        } else if s == "spinrilla"@ {
            Some(Platform::Spinrilla)
        } else if s == "audius"@ {
            Some(Platform::Audius)
        } else if s == "anghami"@ {
            Some(Platform::Anghami)
        } else if s == "boomplay"@ {
            Some(Platform::Boomplay)
        } else if s == "audiomack"@ {
            Some(Platform::Audiomack)
        } else if s == "bandcamp"@ {
            Some(Platform::Bandcamp)
        } else {
            None
        }
    }

    /// The platforms in declaration order.
    pub open spec fn listing() -> Seq<Platform> {
        seq![
            Platform::Spotify,
            Platform::iTunes,
            Platform::AppleMusic,
            Platform::YouTube,
            Platform::YouTubeMusic,
            Platform::Google,
            Platform::GoogleStore,
            Platform::Pandora,
            Platform::Deezer,
            Platform::Tidal,
            Platform::AmazonStore,
            Platform::AmazonMusic,
            Platform::SoundCloud,
            Platform::Napster,
            Platform::Yandex,
            Platform::Spinrilla,
            Platform::Audius,
            Platform::Anghami,
            Platform::Boomplay,
            Platform::Audiomack,
            Platform::Bandcamp,
        ]
    }

    pub fn as_str(&self) -> (r: &'static str)
        ensures
            r@ == self.wire(),
    {
        match self {
            Platform::Spotify => "spotify",
            Platform::iTunes => "itunes",
            Platform::AppleMusic => "appleMusic",
            Platform::YouTube => "youtube",
            Platform::YouTubeMusic => "youtubeMusic",
            Platform::Google => "google",
            Platform::GoogleStore => "googleStore",
            Platform::Pandora => "pandora",
            Platform::Deezer => "deezer",
            Platform::Tidal => "tidal",
            Platform::AmazonStore => "amazonStore",
            Platform::AmazonMusic => "amazonMusic",
            Platform::SoundCloud => "soundcloud",
            Platform::Napster => "napster",
            Platform::Yandex => "yandex",
            Platform::Spinrilla => "spinrilla",
            Platform::Audius => "audius",
            Platform::Anghami => "anghami",
            Platform::Boomplay => "boomplay",
            Platform::Audiomack => "audiomack",
            Platform::Bandcamp => "bandcamp",
        }
    }

    /// Reads a wire token. A token that names no platform is an error
    /// that carries the token.
    pub fn from_str(s: &str) -> (r: Result<Platform, OdesliError>)
        ensures
            match r {
                Ok(v) => Platform::from_wire(s@) == Some(v),
                Err(e) => Platform::from_wire(s@) is None && (e matches OdesliError::UnknownPlatform(t) && t@ == s@),
            },
    {
        if same_text(s, "spotify") {
            Ok(Platform::Spotify)
        } else if same_text(s, "itunes") {
            Ok(Platform::iTunes)
        } else if same_text(s, "appleMusic") {
            Ok(Platform::AppleMusic)
        } else if same_text(s, "youtube") {
            Ok(Platform::YouTube)
        } else if same_text(s, "youtubeMusic") {
            Ok(Platform::YouTubeMusic)
        } else if same_text(s, "google") {
            Ok(Platform::Google)
        } else if same_text(s, "googleStore") {
            Ok(Platform::GoogleStore)
        } else if same_text(s, "pandora") {
            Ok(Platform::Pandora)
        } else if same_text(s, "deezer") {
            Ok(Platform::Deezer)
        } else if same_text(s, "tidal") {
            Ok(Platform::Tidal)
        } else if same_text(s, "amazonStore") {
            Ok(Platform::AmazonStore)
        } else if same_text(s, "amazonMusic") {
            Ok(Platform::AmazonMusic)
        } else if same_text(s, "soundcloud") {
            Ok(Platform::SoundCloud)
        } else if same_text(s, "napster") {
            Ok(Platform::Napster)
        } else if same_text(s, "yandex") {
            Ok(Platform::Yandex)
        } else if same_text(s, "spinrilla") {
            Ok(Platform::Spinrilla)
        } else if same_text(s, "audius") {
            Ok(Platform::Audius)
        } else if same_text(s, "anghami") {
            Ok(Platform::Anghami)
        } else if same_text(s, "boomplay") {
            Ok(Platform::Boomplay)
        } else if same_text(s, "audiomack") {
            Ok(Platform::Audiomack)
        } else if same_text(s, "bandcamp") {
            Ok(Platform::Bandcamp)
        } else {
            Err(OdesliError::UnknownPlatform(String::from_str(s)))
        }
    }

    /// Every value, in declaration order.
    pub fn all() -> (r: Vec<Platform>)
        ensures
            r@ == Platform::listing(),
    {
        let r = vec![
            Platform::Spotify,
            Platform::iTunes,
            Platform::AppleMusic,
            Platform::YouTube,
            Platform::YouTubeMusic,
            Platform::Google,
            Platform::GoogleStore,
            Platform::Pandora,
            Platform::Deezer,
            Platform::Tidal,
            Platform::AmazonStore,
            Platform::AmazonMusic,
            Platform::SoundCloud,
            Platform::Napster,
            Platform::Yandex,
            Platform::Spinrilla,
            Platform::Audius,
            Platform::Anghami,
            Platform::Boomplay,
            Platform::Audiomack,
            Platform::Bandcamp,
        ];
        assert(r@ =~= Platform::listing());
        r
    }
}

impl std::str::FromStr for Platform {
    type Err = OdesliError;

    fn from_str(s: &str) -> Result<Platform, OdesliError> {
        Platform::from_str(s)
    }
}

/// Two values with the same wire token are the same value.
pub proof fn lemma_platform_wire_injective(a: Platform, b: Platform)
    requires
        a.wire() == b.wire(),
    ensures
        a == b,
{
    lemma_platform_round_trip(a);
    lemma_platform_round_trip(b);
}

/// Reading back the wire token of a value gives that value.
pub proof fn lemma_platform_round_trip(v: Platform)
    ensures
        Platform::from_wire(v.wire()) == Some(v),
{
    reveal_strlit("spotify");
    reveal_strlit("itunes");
    reveal_strlit("appleMusic");
    reveal_strlit("youtube");
    reveal_strlit("youtubeMusic");
    reveal_strlit("google");
    reveal_strlit("googleStore");
    reveal_strlit("pandora");
    reveal_strlit("deezer");
    reveal_strlit("tidal");
    reveal_strlit("amazonStore");
    reveal_strlit("amazonMusic");
    reveal_strlit("soundcloud");
    reveal_strlit("napster");
    reveal_strlit("yandex");
    reveal_strlit("spinrilla");
    reveal_strlit("audius");
    reveal_strlit("anghami");
    reveal_strlit("boomplay");
    reveal_strlit("audiomack");
    reveal_strlit("bandcamp");
    let w = v.wire();
    match v {
        Platform::Spotify => assert(w.len() == 7 && w[0] == 's' && w[6] == 'y'),
        Platform::iTunes => assert(w.len() == 6 && w[0] == 'i' && w[5] == 's'),
        Platform::AppleMusic => assert(w.len() == 10 && w[0] == 'a' && w[9] == 'c'),
        Platform::YouTube => assert(w.len() == 7 && w[0] == 'y' && w[6] == 'e'),
        Platform::YouTubeMusic => assert(w.len() == 12 && w[0] == 'y' && w[11] == 'c'),
        Platform::Google => assert(w.len() == 6 && w[0] == 'g' && w[5] == 'e'),
        Platform::GoogleStore => assert(w.len() == 11 && w[0] == 'g' && w[10] == 'e'),
        Platform::Pandora => assert(w.len() == 7 && w[0] == 'p' && w[6] == 'a'),
        Platform::Deezer => assert(w.len() == 6 && w[0] == 'd' && w[5] == 'r'),
        Platform::Tidal => assert(w.len() == 5 && w[0] == 't' && w[4] == 'l'),
        Platform::AmazonStore => assert(w.len() == 11 && w[0] == 'a' && w[10] == 'e'),
        Platform::AmazonMusic => assert(w.len() == 11 && w[0] == 'a' && w[10] == 'c'),
        Platform::SoundCloud => assert(w.len() == 10 && w[0] == 's' && w[9] == 'd'),
        Platform::Napster => assert(w.len() == 7 && w[0] == 'n' && w[6] == 'r'),
        Platform::Yandex => assert(w.len() == 6 && w[0] == 'y' && w[5] == 'x'),
        Platform::Spinrilla => assert(w.len() == 9 && w[0] == 's' && w[8] == 'a'),
        Platform::Audius => assert(w.len() == 6 && w[0] == 'a' && w[5] == 's'),
        Platform::Anghami => assert(w.len() == 7 && w[0] == 'a' && w[6] == 'i'),
        Platform::Boomplay => assert(w.len() == 8 && w[0] == 'b' && w[7] == 'y'),
        Platform::Audiomack => assert(w.len() == 9 && w[0] == 'a' && w[8] == 'k'),
        Platform::Bandcamp => assert(w.len() == 8 && w[0] == 'b' && w[7] == 'p'),
    }
}

/// A token that names a platform is that platform's wire token.
pub proof fn lemma_platform_from_wire(s: Seq<char>)
    requires
        Platform::from_wire(s) is Some,
    ensures
        Platform::from_wire(s)->Some_0.wire() == s,
{
}

/// Each value appears in the listing exactly once.
pub proof fn lemma_platform_listing_complete(v: Platform)
    ensures
        Platform::listing().contains(v),
        Platform::listing().no_duplicates(),
{
    let l = Platform::listing();
    assert(l.contains(v)) by {
        match v {
            Platform::Spotify => assert(l[0] == v),
            Platform::iTunes => assert(l[1] == v),
            Platform::AppleMusic => assert(l[2] == v),
            Platform::YouTube => assert(l[3] == v),
            Platform::YouTubeMusic => assert(l[4] == v),
            Platform::Google => assert(l[5] == v),
            Platform::GoogleStore => assert(l[6] == v),
            Platform::Pandora => assert(l[7] == v),
            Platform::Deezer => assert(l[8] == v),
            Platform::Tidal => assert(l[9] == v),
            Platform::AmazonStore => assert(l[10] == v),
            Platform::AmazonMusic => assert(l[11] == v),
            Platform::SoundCloud => assert(l[12] == v),
            Platform::Napster => assert(l[13] == v),
            Platform::Yandex => assert(l[14] == v),
            Platform::Spinrilla => assert(l[15] == v),
            Platform::Audius => assert(l[16] == v),
            Platform::Anghami => assert(l[17] == v),
            Platform::Boomplay => assert(l[18] == v),
            Platform::Audiomack => assert(l[19] == v),
            Platform::Bandcamp => assert(l[20] == v),
        }
    }
}

/// A content provider that powers the data of one or more platforms.
#[derive(Clone, Copy, Debug, PartialEq, Eq, Hash, Structural)]
pub enum APIProvider {
    Spotify,
    #[allow(non_camel_case_types)]
    iTunes,
    YouTube,
    Google,
    Pandora,
    Deezer,
    Tidal,
    Amazon,
    SoundCloud,
    Napster,
    Yandex,
    Spinrilla,
    Audius,
    Anghami,
    Boomplay,
    Audiomack,
    Bandcamp,
}

impl APIProvider {
    /// The token that stands for this value on the wire.
    pub open spec fn wire(self) -> Seq<char> {
        match self {
            APIProvider::Spotify => "spotify"@,
            APIProvider::iTunes => "itunes"@,
            APIProvider::YouTube => "youtube"@,
            APIProvider::Google => "google"@,
            APIProvider::Pandora => "pandora"@,
            APIProvider::Deezer => "deezer"@,
            APIProvider::Tidal => "tidal"@,
            APIProvider::Amazon => "amazon"@,
            APIProvider::SoundCloud => "soundcloud"@,
            APIProvider::Napster => "napster"@,
            APIProvider::Yandex => "yandex"@,
            APIProvider::Spinrilla => "spinrilla"@,
            APIProvider::Audius => "audius"@,
            APIProvider::Anghami => "anghami"@,
            APIProvider::Boomplay => "boomplay"@,
            APIProvider::Audiomack => "audiomack"@,
            APIProvider::Bandcamp => "bandcamp"@,
        }
    }

    /// The value whose wire token is `s`, if there is one.
    pub open spec fn from_wire(s: Seq<char>) -> Option<APIProvider> {
        if s == "spotify"@ {
            Some(APIProvider::Spotify)
        } else if s == "itunes"@ {
            Some(APIProvider::iTunes)
        } else if s == "youtube"@ {
            Some(APIProvider::YouTube)
        } else if s == "google"@ {
            Some(APIProvider::Google)
        } else if s == "pandora"@ {
            Some(APIProvider::Pandora)
        } else if s == "deezer"@ {
            Some(APIProvider::Deezer)
        } else if s == "tidal"@ {
            Some(APIProvider::Tidal)
        } else if s == "amazon"@ {
            Some(APIProvider::Amazon)
        } else if s == "soundcloud"@ {
            Some(APIProvider::SoundCloud)
        } else if s == "napster"@ {
            Some(APIProvider::Napster)
        } else if s == "yandex"@ {
            Some(APIProvider::Yandex)
        } else if s == "spinrilla"@ {
            Some(APIProvider::Spinrilla)
        } else if s == "audius"@ {
            Some(APIProvider::Audius)
        } else if s == "anghami"@ {
            Some(APIProvider::Anghami)
        } else if s == "boomplay"@ {
            Some(APIProvider::Boomplay)
        } else if s == "audiomack"@ {
            Some(APIProvider::Audiomack)
        } else if s == "bandcamp"@ {
            Some(APIProvider::Bandcamp)
        } else {
            None
        }
    }

    /// The API providers in declaration order.
    pub open spec fn listing() -> Seq<APIProvider> {
        seq![
            APIProvider::Spotify,
            APIProvider::iTunes,
            APIProvider::YouTube,
            APIProvider::Google,
            APIProvider::Pandora,
            APIProvider::Deezer,
            APIProvider::Tidal,
            APIProvider::Amazon,
            APIProvider::SoundCloud,
            APIProvider::Napster,
            APIProvider::Yandex,
            APIProvider::Spinrilla,
            APIProvider::Audius,
            APIProvider::Anghami,
            APIProvider::Boomplay,
            APIProvider::Audiomack,
            APIProvider::Bandcamp,
        ]
    }

    pub fn as_str(&self) -> (r: &'static str)
        ensures
            r@ == self.wire(),
    {
        match self {
            APIProvider::Spotify => "spotify",
            APIProvider::iTunes => "itunes",
            APIProvider::YouTube => "youtube",
            APIProvider::Google => "google",
            APIProvider::Pandora => "pandora",
            APIProvider::Deezer => "deezer",
            APIProvider::Tidal => "tidal",
            APIProvider::Amazon => "amazon",
            APIProvider::SoundCloud => "soundcloud",
            APIProvider::Napster => "napster",
            APIProvider::Yandex => "yandex",
            APIProvider::Spinrilla => "spinrilla",
            APIProvider::Audius => "audius",
            APIProvider::Anghami => "anghami",
            APIProvider::Boomplay => "boomplay",
            APIProvider::Audiomack => "audiomack",
            APIProvider::Bandcamp => "bandcamp",
        }
    }

    /// Reads a wire token. A token that names no API provider is an error
    /// that carries the token.
    pub fn from_str(s: &str) -> (r: Result<APIProvider, OdesliError>)
        ensures
            match r {
                Ok(v) => APIProvider::from_wire(s@) == Some(v),
                Err(e) => APIProvider::from_wire(s@) is None && (e matches OdesliError::UnknownAPIProvider(t) && t@ == s@),
            },
    {
        if same_text(s, "spotify") {
            Ok(APIProvider::Spotify)
        } else if same_text(s, "itunes") {
            Ok(APIProvider::iTunes)
        } else if same_text(s, "youtube") {
            Ok(APIProvider::YouTube)
        } else if same_text(s, "google") {
            Ok(APIProvider::Google)
        } else if same_text(s, "pandora") {
            Ok(APIProvider::Pandora)
        } else if same_text(s, "deezer") {
            Ok(APIProvider::Deezer)
        } else if same_text(s, "tidal") {
            Ok(APIProvider::Tidal)
        } else if same_text(s, "amazon") {
            Ok(APIProvider::Amazon)
        } else if same_text(s, "soundcloud") {
            Ok(APIProvider::SoundCloud)
        } else if same_text(s, "napster") {
            Ok(APIProvider::Napster)
        } else if same_text(s, "yandex") {
            Ok(APIProvider::Yandex)
        } else if same_text(s, "spinrilla") {
            Ok(APIProvider::Spinrilla)
        } else if same_text(s, "audius") {
            Ok(APIProvider::Audius)
        } else if same_text(s, "anghami") {
            Ok(APIProvider::Anghami)
        } else if same_text(s, "boomplay") {
            Ok(APIProvider::Boomplay)
        } else if same_text(s, "audiomack") {
            Ok(APIProvider::Audiomack)
        } else if same_text(s, "bandcamp") {
            Ok(APIProvider::Bandcamp)
        } else {
            Err(OdesliError::UnknownAPIProvider(String::from_str(s)))
        }
    }

    /// Every value, in declaration order.
    pub fn all() -> (r: Vec<APIProvider>)
        ensures
            r@ == APIProvider::listing(),
    {
        let r = vec![
            APIProvider::Spotify,
            APIProvider::iTunes,
            APIProvider::YouTube,
            APIProvider::Google,
            APIProvider::Pandora,
            APIProvider::Deezer,
            APIProvider::Tidal,
            APIProvider::Amazon,
            APIProvider::SoundCloud,
            APIProvider::Napster,
            APIProvider::Yandex,
            APIProvider::Spinrilla,
            APIProvider::Audius,
            APIProvider::Anghami,
            APIProvider::Boomplay,
            APIProvider::Audiomack,
            APIProvider::Bandcamp,
        ];
        assert(r@ =~= APIProvider::listing());
        r
    }
}

impl std::str::FromStr for APIProvider {
    type Err = OdesliError;

    fn from_str(s: &str) -> Result<APIProvider, OdesliError> {
        APIProvider::from_str(s)
    }
}

/// Two values with the same wire token are the same value.
pub proof fn lemma_api_provider_wire_injective(a: APIProvider, b: APIProvider)
    requires
        a.wire() == b.wire(),
    ensures
        a == b,
{
    lemma_api_provider_round_trip(a);
    lemma_api_provider_round_trip(b);
}

/// Reading back the wire token of a value gives that value.
pub proof fn lemma_api_provider_round_trip(v: APIProvider)
    ensures
        APIProvider::from_wire(v.wire()) == Some(v),
{
    reveal_strlit("spotify");
    reveal_strlit("itunes");
    reveal_strlit("youtube");
    reveal_strlit("google");
    reveal_strlit("pandora");
    reveal_strlit("deezer");
    reveal_strlit("tidal");
    reveal_strlit("amazon");
    reveal_strlit("soundcloud");
    reveal_strlit("napster");
    reveal_strlit("yandex");
    reveal_strlit("spinrilla");
    reveal_strlit("audius");
    reveal_strlit("anghami");
    reveal_strlit("boomplay");
    reveal_strlit("audiomack");
    reveal_strlit("bandcamp");
    let w = v.wire();
    match v {
        APIProvider::Spotify => assert(w.len() == 7 && w[0] == 's' && w[6] == 'y'),
        APIProvider::iTunes => assert(w.len() == 6 && w[0] == 'i' && w[5] == 's'),
        APIProvider::YouTube => assert(w.len() == 7 && w[0] == 'y' && w[6] == 'e'),
        APIProvider::Google => assert(w.len() == 6 && w[0] == 'g' && w[5] == 'e'),
        APIProvider::Pandora => assert(w.len() == 7 && w[0] == 'p' && w[6] == 'a'),
        APIProvider::Deezer => assert(w.len() == 6 && w[0] == 'd' && w[5] == 'r'),
        APIProvider::Tidal => assert(w.len() == 5 && w[0] == 't' && w[4] == 'l'),
        APIProvider::Amazon => assert(w.len() == 6 && w[0] == 'a' && w[5] == 'n'),
        APIProvider::SoundCloud => assert(w.len() == 10 && w[0] == 's' && w[9] == 'd'),
        APIProvider::Napster => assert(w.len() == 7 && w[0] == 'n' && w[6] == 'r'),
        APIProvider::Yandex => assert(w.len() == 6 && w[0] == 'y' && w[5] == 'x'),
        APIProvider::Spinrilla => assert(w.len() == 9 && w[0] == 's' && w[8] == 'a'),
        APIProvider::Audius => assert(w.len() == 6 && w[0] == 'a' && w[5] == 's'),
        APIProvider::Anghami => assert(w.len() == 7 && w[0] == 'a' && w[6] == 'i'),
        APIProvider::Boomplay => assert(w.len() == 8 && w[0] == 'b' && w[7] == 'y'),
        APIProvider::Audiomack => assert(w.len() == 9 && w[0] == 'a' && w[8] == 'k'),
        APIProvider::Bandcamp => assert(w.len() == 8 && w[0] == 'b' && w[7] == 'p'),
    }
}

/// Each value appears in the listing exactly once.
pub proof fn lemma_api_provider_listing_complete(v: APIProvider)
    ensures
        APIProvider::listing().contains(v),
        APIProvider::listing().no_duplicates(),
{
    let l = APIProvider::listing();
    assert(l.contains(v)) by {
        match v {
            APIProvider::Spotify => assert(l[0] == v),
            APIProvider::iTunes => assert(l[1] == v),
            APIProvider::YouTube => assert(l[2] == v),
            APIProvider::Google => assert(l[3] == v),
            APIProvider::Pandora => assert(l[4] == v),
            APIProvider::Deezer => assert(l[5] == v),
            APIProvider::Tidal => assert(l[6] == v),
            APIProvider::Amazon => assert(l[7] == v),
            APIProvider::SoundCloud => assert(l[8] == v),
            APIProvider::Napster => assert(l[9] == v),
            APIProvider::Yandex => assert(l[10] == v),
            APIProvider::Spinrilla => assert(l[11] == v),
            APIProvider::Audius => assert(l[12] == v),
            APIProvider::Anghami => assert(l[13] == v),
            APIProvider::Boomplay => assert(l[14] == v),
            APIProvider::Audiomack => assert(l[15] == v),
            APIProvider::Bandcamp => assert(l[16] == v),
        }
    }
}

} // verus!
