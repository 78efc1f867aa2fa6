use vstd::prelude::*;

use crate::api_result::{
    Entity, EntityView, Link, LinkView, LinksAPIResult, LinksAPIResultView, keys_unique,
    lemma_lookup_found, lookup,
};
use crate::entity_type::EntityType;
use crate::errors::{unknown_api_provider_prefix, unknown_entity_type_prefix, unknown_platform_prefix};
use crate::json::{JsonValue, get_member, member, member_table, names_unique};
use crate::platforms::{APIProvider, Platform, lemma_platform_from_wire};

verus! {

/// The results of `f` on the elements of `s`, in order, where `f` succeeds on
/// every one; otherwise the error of the first element on which it fails.
pub open spec fn decode_all<A, B>(s: Seq<A>, f: spec_fn(A) -> Result<B, Seq<char>>) -> Result<
    Seq<B>,
    Seq<char>,
>
    decreases s.len(),
{
    if s.len() == 0 {
        Ok(Seq::empty())
    } else {
        match f(s[0]) {
            Err(e) => Err(e),
            Ok(x) => match decode_all(s.drop_first(), f) {
                Ok(rest) => Ok(seq![x] + rest),
                Err(e) => Err(e),
            },
        }
    }
}

/// `r` with `p` put in front of its results.
pub open spec fn prepend<B>(p: Seq<B>, r: Result<Seq<B>, Seq<char>>) -> Result<Seq<B>, Seq<char>> {
    match r {
        Ok(v) => Ok(p + v),
        Err(e) => Err(e),
    }
}

/// Where every element decodes, each result is that of its element.
pub proof fn lemma_decode_all_ok<A, B>(s: Seq<A>, f: spec_fn(A) -> Result<B, Seq<char>>)
    requires
        decode_all(s, f) is Ok,
    ensures
        decode_all(s, f)->Ok_0.len() == s.len(),
        forall|i: int| 0 <= i < s.len() ==> f(s[i]) == Ok::<B, Seq<char>>(decode_all(s, f)->Ok_0[i]),
    decreases s.len(),
{
    if s.len() > 0 {
        lemma_decode_all_ok(s.drop_first(), f);
        let v = decode_all(s, f)->Ok_0;
        let rest = decode_all(s.drop_first(), f)->Ok_0;
        assert forall|i: int| 0 <= i < s.len() implies f(s[i]) == Ok::<B, Seq<char>>(v[i]) by {
            if i > 0 {
                assert(s[i] == s.drop_first()[i - 1]);
                assert(v[i] == rest[i - 1]);
            }
        }
    }
}

/// One step of a decoding loop: the remaining elements from `i` on.
proof fn lemma_decode_all_step<A, B>(s: Seq<A>, f: spec_fn(A) -> Result<B, Seq<char>>, i: int)
    requires
        0 <= i < s.len(),
    ensures
        decode_all(s.subrange(i, s.len() as int), f) == match f(s[i]) {
            Err(e) => Err(e),
            Ok(x) => prepend(seq![x], decode_all(s.subrange(i + 1, s.len() as int), f)),
        },
{
    assert(s.subrange(i, s.len() as int)[0] == s[i]);
    assert(s.subrange(i, s.len() as int).drop_first() =~= s.subrange(i + 1, s.len() as int));
}

/// Putting `p` and then `x` in front is putting `p` followed by `x` in front.
proof fn lemma_prepend_push<B>(p: Seq<B>, x: B, r: Result<Seq<B>, Seq<char>>)
    ensures
        prepend(p, prepend(seq![x], r)) == prepend(p.push(x), r),
{
    match r {
        Ok(v) => assert(p + (seq![x] + v) =~= p.push(x) + v),
        Err(_) => {},
    }
}

/// The error of a member that is missing or holds a value of the wrong kind.
pub open spec fn field_error_text(key: Seq<char>) -> Seq<char> {
    "missing or invalid field `"@ + key + "`"@
}

/// A member that must be present and hold a string.
pub open spec fn text_member(ms: Seq<(String, JsonValue)>, key: Seq<char>) -> Result<
    Seq<char>,
    Seq<char>,
> {
    match member(ms, key) {
        Some(JsonValue::Str(s)) => Ok(s@),
        _ => Err(field_error_text(key)),
    }
}

/// A member that may be absent or null (no text), or else holds a string.
pub open spec fn opt_text_member(ms: Seq<(String, JsonValue)>, key: Seq<char>) -> Result<
    Option<Seq<char>>,
    Seq<char>,
> {
    match member(ms, key) {
        None => Ok(None),
        Some(JsonValue::Null) => Ok(None),
        Some(JsonValue::Str(s)) => Ok(Some(s@)),
        Some(_) => Err(field_error_text(key)),
    }
}

/// A member that may be absent or null (no number), or else holds an integer
/// within `u64`.
pub open spec fn opt_uint_member(ms: Seq<(String, JsonValue)>, key: Seq<char>) -> Result<
    Option<u64>,
    Seq<char>,
> {
    match member(ms, key) {
        None => Ok(None),
        Some(JsonValue::Null) => Ok(None),
        Some(JsonValue::UInt(u)) => Ok(Some(u)),
        Some(_) => Err(field_error_text(key)),
    }
}

pub open spec fn platform_token_error() -> Seq<char> {
    "a platform must be a JSON string"@
}

/// A platform token; a string that names no platform fails as
/// `Platform::from_str` does.
pub open spec fn platform_of(j: JsonValue) -> Result<Platform, Seq<char>> {
    match j {
        JsonValue::Str(t) => match Platform::from_wire(t@) {
            Some(p) => Ok(p),
            None => Err(unknown_platform_prefix() + t@),
        },
        _ => Err(platform_token_error()),
    }
}

/// A member that must hold an entity type token.
pub open spec fn entity_type_member(ms: Seq<(String, JsonValue)>, key: Seq<char>) -> Result<
    EntityType,
    Seq<char>,
> {
    match text_member(ms, key) {
        Ok(t) => match EntityType::from_wire(t) {
            Some(v) => Ok(v),
            None => Err(unknown_entity_type_prefix() + t),
        },
        Err(e) => Err(e),
    }
}

/// A member that must hold an API provider token.
pub open spec fn api_provider_member(ms: Seq<(String, JsonValue)>, key: Seq<char>) -> Result<
    APIProvider,
    Seq<char>,
> {
    match text_member(ms, key) {
        Ok(t) => match APIProvider::from_wire(t) {
            Some(v) => Ok(v),
            None => Err(unknown_api_provider_prefix() + t),
        },
        Err(e) => Err(e),
    }
}

/// A member that must hold an array of platform tokens.
pub open spec fn platforms_member(ms: Seq<(String, JsonValue)>, key: Seq<char>) -> Result<
    Seq<Platform>,
    Seq<char>,
> {
    match member(ms, key) {
        Some(JsonValue::Array(items)) => decode_all(items@, |j: JsonValue| platform_of(j)),
        _ => Err(field_error_text(key)),
    }
}

pub open spec fn link_object_error() -> Seq<char> {
    "a link must be a JSON object"@
}

pub open spec fn entity_object_error() -> Seq<char> {
    "an entity must be a JSON object"@
}

pub open spec fn response_object_error() -> Seq<char> {
    "the response must be a JSON object"@
}

/// The link that a JSON value describes; otherwise the error of its first
/// member that is wrong, in the order the fields are listed.
pub open spec fn decode_link(j: JsonValue) -> Result<LinkView, Seq<char>> {
    match j {
        JsonValue::Object(ms) => match text_member(ms@, "entityUniqueId"@) {
            Err(e) => Err(e),
            Ok(id) => match text_member(ms@, "url"@) {
                Err(e) => Err(e),
                Ok(url) => match opt_text_member(ms@, "nativeAppUriMobile"@) {
                    Err(e) => Err(e),
                    Ok(mobile) => match opt_text_member(ms@, "nativeAppUriDesktop"@) {
                        Err(e) => Err(e),
                        Ok(desktop) => Ok(
                            LinkView {
                                entity_unique_id: id,
                                url: url,
                                native_app_uri_mobile: mobile,
                                native_app_uri_desktop: desktop,
                            },
                        ),
                    },
                },
            },
        },
        _ => Err(link_object_error()),
    }
}

/// The last five fields of an entity, read in order once the first four are.
pub open spec fn decode_entity_rest(
    ms: Seq<(String, JsonValue)>,
    id: Seq<char>,
    entity_type: EntityType,
    title: Option<Seq<char>>,
    artist_name: Option<Seq<char>>,
) -> Result<EntityView, Seq<char>> {
    match opt_text_member(ms, "thumbnailUrl"@) {
        Err(e) => Err(e),
        Ok(thumbnail_url) => match opt_uint_member(ms, "thumbnailWidth"@) {
            Err(e) => Err(e),
            Ok(thumbnail_width) => match opt_uint_member(ms, "thumbnailHeight"@) {
                Err(e) => Err(e),
                Ok(thumbnail_height) => match api_provider_member(ms, "apiProvider"@) {
                    Err(e) => Err(e),
                    Ok(api_provider) => match platforms_member(ms, "platforms"@) {
                        Err(e) => Err(e),
                        Ok(platforms) => Ok(
                            EntityView {
                                id,
                                entity_type,
                                title,
                                artist_name,
                                thumbnail_url,
                                thumbnail_width,
                                thumbnail_height,
                                api_provider,
                                platforms,
                            },
                        ),
                    },
                },
            },
        },
    }
}

/// The entity that a JSON value describes; otherwise the error of its first
/// member that is wrong, in the order the fields are listed.
pub open spec fn decode_entity(j: JsonValue) -> Result<EntityView, Seq<char>> {
    match j {
        JsonValue::Object(ms) => match text_member(ms@, "id"@) {
            Err(e) => Err(e),
            Ok(id) => match entity_type_member(ms@, "type"@) {
                Err(e) => Err(e),
                Ok(entity_type) => match opt_text_member(ms@, "title"@) {
                    Err(e) => Err(e),
                    Ok(title) => match opt_text_member(ms@, "artistName"@) {
                        Err(e) => Err(e),
                        Ok(artist_name) => decode_entity_rest(
                            ms@,
                            id,
                            entity_type,
                            title,
                            artist_name,
                        ),
                    },
                },
            },
        },
        _ => Err(entity_object_error()),
    }
}

/// A member of `linksByPlatform`: its name is a platform token, its value a link.
pub open spec fn link_entry(m: (String, JsonValue)) -> Result<(Platform, LinkView), Seq<char>> {
    match Platform::from_wire(m.0@) {
        None => Err(unknown_platform_prefix() + m.0@),
        Some(p) => match decode_link(m.1) {
            Ok(l) => Ok((p, l)),
            Err(e) => Err(e),
        },
    }
}

/// A member of `entitiesByUniqueId`: its name is the key, its value an entity.
pub open spec fn entity_entry(m: (String, JsonValue)) -> Result<(Seq<char>, EntityView), Seq<char>> {
    match decode_entity(m.1) {
        Ok(e) => Ok((m.0@, e)),
        Err(e) => Err(e),
    }
}

pub open spec fn links_member(ms: Seq<(String, JsonValue)>, key: Seq<char>) -> Result<
    Seq<(Platform, LinkView)>,
    Seq<char>,
> {
    match member(ms, key) {
        Some(JsonValue::Object(lm)) => decode_all(lm@, |m: (String, JsonValue)| link_entry(m)),
        _ => Err(field_error_text(key)),
    }
}

pub open spec fn entities_member(ms: Seq<(String, JsonValue)>, key: Seq<char>) -> Result<
    Seq<(Seq<char>, EntityView)>,
    Seq<char>,
> {
    match member(ms, key) {
        Some(JsonValue::Object(em)) => decode_all(em@, |m: (String, JsonValue)| entity_entry(m)),
        _ => Err(field_error_text(key)),
    }
}

/// The links result that a JSON value describes; otherwise the error of its
/// first member that is wrong, in the order the fields are listed. Members
/// that the result has no field for are ignored.
pub open spec fn decode_links_result(j: JsonValue) -> Result<LinksAPIResultView, Seq<char>> {
    match j {
        JsonValue::Object(ms) => match text_member(ms@, "entityUniqueId"@) {
            Err(e) => Err(e),
            Ok(id) => match text_member(ms@, "userCountry"@) {
                Err(e) => Err(e),
                Ok(country) => match text_member(ms@, "pageUrl"@) {
                    Err(e) => Err(e),
                    Ok(page) => match links_member(ms@, "linksByPlatform"@) {
                        Err(e) => Err(e),
                        Ok(links) => match entities_member(ms@, "entitiesByUniqueId"@) {
                            Err(e) => Err(e),
                            Ok(entities) => Ok(
                                LinksAPIResultView {
                                    entity_unique_id: id,
                                    user_country: country,
                                    page_url: page,
                                    links_by_platform: links,
                                    entities_by_unique_id: entities,
                                },
                            ),
                        },
                    },
                },
            },
        },
        _ => Err(response_object_error()),
    }
}

/// A member's value lies inside its object: where the names of every member's
/// value are unique throughout, so are those of the value found under `key`.
proof fn lemma_member_names_unique(ms: Seq<(String, JsonValue)>, key: Seq<char>)
    requires
        forall|i: int| 0 <= i < ms.len() ==> names_unique(#[trigger] ms[i].1),
        member(ms, key) is Some,
    ensures
        names_unique(member(ms, key)->Some_0),
{
    let t = member_table(ms);
    lemma_lookup_found(t, key);
    let i = choose|i: int| 0 <= i < t.len() && t[i] == (key, lookup(t, key)->Some_0);
    assert(t[i].1 == ms[i].1);
}

/// Decoding keeps maps maps: where no object of the document repeats a
/// member name, no platform and no entity key of the decoded result occurs
/// twice.
pub proof fn lemma_decoded_result_wf(j: JsonValue)
    requires
        names_unique(j),
        decode_links_result(j) is Ok,
    ensures
        decode_links_result(j)->Ok_0.wf(),
{
    let ms = j->Object_0@;
    lemma_member_names_unique(ms, "linksByPlatform"@);
    lemma_member_names_unique(ms, "entitiesByUniqueId"@);
    let lm = member(ms, "linksByPlatform"@)->Some_0->Object_0@;
    let em = member(ms, "entitiesByUniqueId"@)->Some_0->Object_0@;
    let v = decode_links_result(j)->Ok_0;
    let lf = |m: (String, JsonValue)| link_entry(m);
    let ef = |m: (String, JsonValue)| entity_entry(m);
    lemma_decode_all_ok(lm, lf);
    lemma_decode_all_ok(em, ef);
    assert(keys_unique(member_table(lm)));
    assert(keys_unique(member_table(em)));
    assert forall|a: int, b: int|
        0 <= a < b < v.links_by_platform.len() implies v.links_by_platform[a].0
        != v.links_by_platform[b].0 by {
        assert(lf(lm[a]) is Ok);
        assert(lf(lm[b]) is Ok);
        lemma_platform_from_wire(lm[a].0@);
        lemma_platform_from_wire(lm[b].0@);
        assert(member_table(lm)[a].0 == lm[a].0@);
        assert(member_table(lm)[b].0 == lm[b].0@);
    }
    assert forall|a: int, b: int|
        0 <= a < b < v.entities_by_unique_id.len() implies v.entities_by_unique_id[a].0
        != v.entities_by_unique_id[b].0 by {
        assert(ef(em[a]) is Ok);
        assert(ef(em[b]) is Ok);
        assert(member_table(em)[a].0 == em[a].0@);
        assert(member_table(em)[b].0 == em[b].0@);
    }
}

fn field_error(key: &str) -> (r: String)
    ensures
        r@ == field_error_text(key@),
{
    String::from_str("missing or invalid field `").concat(key).concat("`")
}

fn read_text_member(ms: &Vec<(String, JsonValue)>, key: &str) -> (r: Result<String, String>)
    ensures
        match r {
            Ok(t) => text_member(ms@, key@) == Ok::<Seq<char>, Seq<char>>(t@),
            Err(e) => text_member(ms@, key@) == Err::<Seq<char>, Seq<char>>(e@),
        },
{
    match get_member(ms, key) {
        Some(JsonValue::Str(s)) => Ok(s.clone()),
        _ => Err(field_error(key)),
    }
}

fn read_opt_text_member(ms: &Vec<(String, JsonValue)>, key: &str) -> (r: Result<
    Option<String>,
    String,
>)
    ensures
        match r {
            Ok(t) => opt_text_member(ms@, key@) == Ok::<Option<Seq<char>>, Seq<char>>(
                crate::api_result::opt_text(t),
            ),
            Err(e) => opt_text_member(ms@, key@) == Err::<Option<Seq<char>>, Seq<char>>(e@),
        },
{
    match get_member(ms, key) {
        None => Ok(None),
        Some(JsonValue::Null) => Ok(None),
        Some(JsonValue::Str(s)) => Ok(Some(s.clone())),
        Some(_) => Err(field_error(key)),
    }
}

fn read_opt_uint_member(ms: &Vec<(String, JsonValue)>, key: &str) -> (r: Result<
    Option<u64>,
    String,
>)
    ensures
        match r {
            Ok(u) => opt_uint_member(ms@, key@) == Ok::<Option<u64>, Seq<char>>(u),
            Err(e) => opt_uint_member(ms@, key@) == Err::<Option<u64>, Seq<char>>(e@),
        },
{
    match get_member(ms, key) {
        None => Ok(None),
        Some(JsonValue::Null) => Ok(None),
        Some(JsonValue::UInt(u)) => Ok(Some(*u)),
        Some(_) => Err(field_error(key)),
    }
}

fn read_entity_type_member(ms: &Vec<(String, JsonValue)>, key: &str) -> (r: Result<
    EntityType,
    String,
>)
    ensures
        match r {
            Ok(t) => entity_type_member(ms@, key@) == Ok::<EntityType, Seq<char>>(t),
            Err(e) => entity_type_member(ms@, key@) == Err::<EntityType, Seq<char>>(e@),
        },
{
    match read_text_member(ms, key) {
        Ok(t) => match EntityType::from_str(t.as_str()) {
            Ok(v) => Ok(v),
            Err(e) => Err(e.message()),
        },
        Err(e) => Err(e),
    }
}

fn read_api_provider_member(ms: &Vec<(String, JsonValue)>, key: &str) -> (r: Result<
    APIProvider,
    String,
>)
    ensures
        match r {
            Ok(p) => api_provider_member(ms@, key@) == Ok::<APIProvider, Seq<char>>(p),
            Err(e) => api_provider_member(ms@, key@) == Err::<APIProvider, Seq<char>>(e@),
        },
{
    match read_text_member(ms, key) {
        Ok(t) => match APIProvider::from_str(t.as_str()) {
            Ok(v) => Ok(v),
            Err(e) => Err(e.message()),
        },
        Err(e) => Err(e),
    }
}

fn read_platforms_member(ms: &Vec<(String, JsonValue)>, key: &str) -> (r: Result<
    Vec<Platform>,
    String,
>)
    ensures
        match r {
            Ok(ps) => platforms_member(ms@, key@) == Ok::<Seq<Platform>, Seq<char>>(ps@),
            Err(e) => platforms_member(ms@, key@) == Err::<Seq<Platform>, Seq<char>>(e@),
        },
{
    let items = match get_member(ms, key) {
        Some(JsonValue::Array(items)) => items,
        _ => {
            return Err(field_error(key));
        },
    };
    let ghost f = |j: JsonValue| platform_of(j);
    let n = items.len();
    let mut out: Vec<Platform> = Vec::new();
    let mut i: usize = 0;
    assert(items@.subrange(0, n as int) =~= items@);
    assert(out@ + Seq::<Platform>::empty() =~= out@);
    while i < n
        invariant
            n == items@.len(),
            member(ms@, key@) == Some(JsonValue::Array(*items)),
            f == (|j: JsonValue| platform_of(j)),
            i <= n,
            decode_all(items@, f) == prepend(out@, decode_all(items@.subrange(i as int, n as int), f)),
        decreases n - i,
    {
        proof {
            lemma_decode_all_step(items@, f, i as int);
        }
        let p = match &items[i] {
            JsonValue::Str(t) => match Platform::from_str(t.as_str()) {
                Ok(p) => p,
                Err(e) => {
                    return Err(e.message());
                },
            },
            _ => {
                return Err(String::from_str("a platform must be a JSON string"));
            },
        };
        proof {
            lemma_prepend_push(out@, p, decode_all(items@.subrange(i + 1, n as int), f));
        }
        out.push(p);
        i = i + 1;
    }
    assert(decode_all(items@.subrange(n as int, n as int), f) == Ok::<Seq<Platform>, Seq<char>>(
        Seq::empty(),
    ));
    assert(out@ + Seq::<Platform>::empty() =~= out@);
    Ok(out)
}

impl Link {
    /// Reads a link from its JSON object, as `decode_link` states: the link,
    /// or the error of its first member that is wrong.
    pub fn from_json(j: &JsonValue) -> (r: Result<Link, String>)
        ensures
            match r {
                Ok(l) => decode_link(*j) == Ok::<LinkView, Seq<char>>(l@),
                Err(e) => decode_link(*j) == Err::<LinkView, Seq<char>>(e@),
            },
    {
        let ms = match j {
            JsonValue::Object(ms) => ms,
            _ => {
                return Err(String::from_str("a link must be a JSON object"));
            },
        };
        let entity_unique_id = match read_text_member(ms, "entityUniqueId") {
            Ok(t) => t,
            Err(e) => {
                return Err(e);
            },
        };
        let url = match read_text_member(ms, "url") {
            Ok(t) => t,
            Err(e) => {
                return Err(e);
            },
        };
        let native_app_uri_mobile = match read_opt_text_member(ms, "nativeAppUriMobile") {
            Ok(t) => t,
            Err(e) => {
                return Err(e);
            },
        };
        let native_app_uri_desktop = match read_opt_text_member(ms, "nativeAppUriDesktop") {
            Ok(t) => t,
            Err(e) => {
                return Err(e);
            },
        };
        Ok(Link { entity_unique_id, url, native_app_uri_mobile, native_app_uri_desktop })
    }
}

impl Entity {
    /// Reads an entity from its JSON object, as `decode_entity` states: the
    /// entity, or the error of its first member that is wrong. An unknown
    /// entity type, API provider or platform token fails with the message of
    /// the matching `OdesliError`, which names the token.
    pub fn from_json(j: &JsonValue) -> (r: Result<Entity, String>)
        ensures
            match r {
                Ok(e) => decode_entity(*j) == Ok::<EntityView, Seq<char>>(e@),
                Err(e) => decode_entity(*j) == Err::<EntityView, Seq<char>>(e@),
            },
    {
        let ms = match j {
            JsonValue::Object(ms) => ms,
            _ => {
                return Err(String::from_str("an entity must be a JSON object"));
            },
        };
        let id = match read_text_member(ms, "id") {
            Ok(t) => t,
            Err(e) => {
                return Err(e);
            },
        };
        let entity_type = match read_entity_type_member(ms, "type") {
            Ok(t) => t,
            Err(e) => {
                return Err(e);
            },
        };
        let title = match read_opt_text_member(ms, "title") {
            Ok(t) => t,
            Err(e) => {
                return Err(e);
            },
        };
        let artist_name = match read_opt_text_member(ms, "artistName") {
            Ok(t) => t,
            Err(e) => {
                return Err(e);
            },
        };
        let thumbnail_url = match read_opt_text_member(ms, "thumbnailUrl") {
            Ok(t) => t,
            Err(e) => {
                return Err(e);
            },
        };
        let thumbnail_width = match read_opt_uint_member(ms, "thumbnailWidth") {
            Ok(u) => u,
            Err(e) => {
                return Err(e);
            },
        };
        let thumbnail_height = match read_opt_uint_member(ms, "thumbnailHeight") {
            Ok(u) => u,
            Err(e) => {
                return Err(e);
            },
        };
        let api_provider = match read_api_provider_member(ms, "apiProvider") {
            Ok(p) => p,
            Err(e) => {
                return Err(e);
            },
        };
        let platforms = match read_platforms_member(ms, "platforms") {
            Ok(ps) => ps,
            Err(e) => {
                return Err(e);
            },
        };
        Ok(
            Entity {
                id,
                entity_type,
                title,
                artist_name,
                thumbnail_url,
                thumbnail_width,
                thumbnail_height,
                api_provider,
                platforms,
            },
        )
    }
}

fn read_links_member(ms: &Vec<(String, JsonValue)>, key: &str) -> (r: Result<
    Vec<(Platform, Link)>,
    String,
>)
    ensures
        match r {
            Ok(links) => links_member(ms@, key@) == Ok::<Seq<(Platform, LinkView)>, Seq<char>>(
                links@.map_values(|e: (Platform, Link)| (e.0, e.1@)),
            ),
            Err(e) => links_member(ms@, key@) == Err::<Seq<(Platform, LinkView)>, Seq<char>>(e@),
        },
{
    let lm = match get_member(ms, key) {
        Some(JsonValue::Object(lm)) => lm,
        _ => {
            return Err(field_error(key));
        },
    };
    let ghost f = |m: (String, JsonValue)| link_entry(m);
    let n = lm.len();
    let mut out: Vec<(Platform, Link)> = Vec::new();
    let mut i: usize = 0;
    assert(lm@.subrange(0, n as int) =~= lm@);
    assert(out@.map_values(|e: (Platform, Link)| (e.0, e.1@)) + Seq::<(Platform, LinkView)>::empty()
        =~= Seq::<(Platform, LinkView)>::empty());
    while i < n
        invariant
            n == lm@.len(),
            member(ms@, key@) == Some(JsonValue::Object(*lm)),
            f == (|m: (String, JsonValue)| link_entry(m)),
            i <= n,
            decode_all(lm@, f) == prepend(
                out@.map_values(|e: (Platform, Link)| (e.0, e.1@)),
                decode_all(lm@.subrange(i as int, n as int), f),
            ),
        decreases n - i,
    {
        proof {
            lemma_decode_all_step(lm@, f, i as int);
        }
        let entry = &lm[i];
        let p = match Platform::from_str(entry.0.as_str()) {
            Ok(p) => p,
            Err(e) => {
                return Err(e.message());
            },
        };
        let l = match Link::from_json(&entry.1) {
            Ok(l) => l,
            Err(e) => {
                return Err(e);
            },
        };
        let ghost before = out@.map_values(|e: (Platform, Link)| (e.0, e.1@));
        proof {
            lemma_prepend_push(before, (p, l@), decode_all(lm@.subrange(i + 1, n as int), f));
        }
        out.push((p, l));
        assert(out@.map_values(|e: (Platform, Link)| (e.0, e.1@)) =~= before.push((p, l@)));
        i = i + 1;
    }
    assert(decode_all(lm@.subrange(n as int, n as int), f) == Ok::<
        Seq<(Platform, LinkView)>,
        Seq<char>,
    >(Seq::empty()));
    assert(out@.map_values(|e: (Platform, Link)| (e.0, e.1@)) + Seq::<(Platform, LinkView)>::empty()
        =~= out@.map_values(|e: (Platform, Link)| (e.0, e.1@)));
    Ok(out)
}

fn read_entities_member(ms: &Vec<(String, JsonValue)>, key: &str) -> (r: Result<
    Vec<(String, Entity)>,
    String,
>)
    ensures
        match r {
            Ok(entities) => entities_member(ms@, key@) == Ok::<
                Seq<(Seq<char>, EntityView)>,
                Seq<char>,
            >(entities@.map_values(|e: (String, Entity)| (e.0@, e.1@))),
            Err(e) => entities_member(ms@, key@) == Err::<Seq<(Seq<char>, EntityView)>, Seq<char>>(
                e@,
            ),
        },
{
    let em = match get_member(ms, key) {
        Some(JsonValue::Object(em)) => em,
        _ => {
            return Err(field_error(key));
        },
    };
    let ghost f = |m: (String, JsonValue)| entity_entry(m);
    let n = em.len();
    let mut out: Vec<(String, Entity)> = Vec::new();
    let mut i: usize = 0;
    assert(em@.subrange(0, n as int) =~= em@);
    assert(out@.map_values(|e: (String, Entity)| (e.0@, e.1@)) + Seq::<(Seq<char>, EntityView)>::empty()
        =~= Seq::<(Seq<char>, EntityView)>::empty());
    while i < n
        invariant
            n == em@.len(),
            member(ms@, key@) == Some(JsonValue::Object(*em)),
            f == (|m: (String, JsonValue)| entity_entry(m)),
            i <= n,
            decode_all(em@, f) == prepend(
                out@.map_values(|e: (String, Entity)| (e.0@, e.1@)),
                decode_all(em@.subrange(i as int, n as int), f),
            ),
        decreases n - i,
    {
        proof {
            lemma_decode_all_step(em@, f, i as int);
        }
        let entry = &em[i];
        let e = match Entity::from_json(&entry.1) {
            Ok(e) => e,
            Err(msg) => {
                return Err(msg);
            },
        };
        let key_text = entry.0.clone();
        let ghost before = out@.map_values(|e: (String, Entity)| (e.0@, e.1@));
        proof {
            lemma_prepend_push(before, (key_text@, e@), decode_all(em@.subrange(i + 1, n as int), f));
        }
        out.push((key_text, e));
        assert(out@.map_values(|e: (String, Entity)| (e.0@, e.1@)) =~= before.push((key_text@, e@)));
        i = i + 1;
    }
    assert(decode_all(em@.subrange(n as int, n as int), f) == Ok::<
        Seq<(Seq<char>, EntityView)>,
        Seq<char>,
    >(Seq::empty()));
    assert(out@.map_values(|e: (String, Entity)| (e.0@, e.1@)) + Seq::<(Seq<char>, EntityView)>::empty()
        =~= out@.map_values(|e: (String, Entity)| (e.0@, e.1@)));
    Ok(out)
}

impl LinksAPIResult {
    /// Reads a links result from the JSON document of a response, as
    /// `decode_links_result` states: the result, or the error of its first
    /// member that is wrong.
    pub fn from_json(j: &JsonValue) -> (r: Result<LinksAPIResult, String>)
        ensures
            match r {
                Ok(res) => decode_links_result(*j) == Ok::<LinksAPIResultView, Seq<char>>(res@),
                Err(e) => decode_links_result(*j) == Err::<LinksAPIResultView, Seq<char>>(e@),
            },
    {
        let ms = match j {
            JsonValue::Object(ms) => ms,
            _ => {
                return Err(String::from_str("the response must be a JSON object"));
            },
        };
        let entity_unique_id = match read_text_member(ms, "entityUniqueId") {
            Ok(t) => t,
            Err(e) => {
                return Err(e);
            },
        };
        let user_country = match read_text_member(ms, "userCountry") {
            Ok(t) => t,
            Err(e) => {
                return Err(e);
            },
        };
        let page_url = match read_text_member(ms, "pageUrl") {
            Ok(t) => t,
            Err(e) => {
                return Err(e);
            },
        };
        let links_by_platform = match read_links_member(ms, "linksByPlatform") {
            Ok(links) => links,
            Err(e) => {
                return Err(e);
            },
        };
        let entities_by_unique_id = match read_entities_member(ms, "entitiesByUniqueId") {
            Ok(entities) => entities,
            Err(e) => {
                return Err(e);
            },
        };
        Ok(
            LinksAPIResult {
                entity_unique_id,
                user_country,
                page_url,
                links_by_platform,
                entities_by_unique_id,
            },
        )
    }
}

} // verus!
