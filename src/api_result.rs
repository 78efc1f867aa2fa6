use vstd::prelude::*;

use crate::entity_type::EntityType;
use crate::platforms::{APIProvider, Platform};

verus! {

/// The value stored under the first occurrence of key `k` in a sequence of
/// key/value pairs, if `k` occurs at all.
pub open spec fn lookup<K, V>(s: Seq<(K, V)>, k: K) -> Option<V>
    decreases s.len(),
{
    if s.len() == 0 {
        None
    } else if s[0].0 == k {
        Some(s[0].1)
    } else {
        lookup(s.drop_first(), k)
    }
}

/// Where `k` is found, it is found at some position of `s`.
pub proof fn lemma_lookup_found<K, V>(s: Seq<(K, V)>, k: K)
    requires
        lookup(s, k) is Some,
    ensures
        exists|i: int| 0 <= i < s.len() && s[i] == (k, lookup(s, k)->Some_0),
    decreases s.len(),
{
    if s[0].0 != k {
        lemma_lookup_found(s.drop_first(), k);
        let i = choose|i: int|
            0 <= i < s.drop_first().len() && s.drop_first()[i] == (k, lookup(s, k)->Some_0);
        assert(s[i + 1] == s.drop_first()[i]);
    } else {
        assert(s[0] == (k, lookup(s, k)->Some_0));
    }
}

/// No key occurs twice: the pairs describe a map.
pub open spec fn keys_unique<K, V>(s: Seq<(K, V)>) -> bool {
    forall|i: int, j: int| 0 <= i < j < s.len() ==> s[i].0 != s[j].0
}

pub open spec fn opt_text(o: Option<String>) -> Option<Seq<char>> {
    match o {
        Some(s) => Some(s@),
        None => None,
    }
}

/// One match on a platform.
#[derive(Clone, Debug)]
pub struct Link {
    /// The key of the matched entity in `LinksAPIResult::entities_by_unique_id`.
    pub entity_unique_id: String,
    /// The URL of the match.
    pub url: String,
    /// A URI that opens the match in the platform's mobile app.
    pub native_app_uri_mobile: Option<String>,
    /// A URI that opens the match in the platform's desktop app.
    pub native_app_uri_desktop: Option<String>,
}

pub struct LinkView {
    pub entity_unique_id: Seq<char>,
    pub url: Seq<char>,
    pub native_app_uri_mobile: Option<Seq<char>>,
    pub native_app_uri_desktop: Option<Seq<char>>,
}

impl View for Link {
    type V = LinkView;

    open spec fn view(&self) -> LinkView {
        LinkView {
            entity_unique_id: self.entity_unique_id@,
            url: self.url@,
            native_app_uri_mobile: opt_text(self.native_app_uri_mobile),
            native_app_uri_desktop: opt_text(self.native_app_uri_desktop),
        }
    }
}

/// The data of one song or album as one provider knows it.
#[derive(Clone, Debug)]
pub struct Entity {
    /// The identifier of the entity at its provider.
    pub id: String,
    /// Whether it is a song or an album.
    pub entity_type: EntityType,
    pub title: Option<String>,
    pub artist_name: Option<String>,
    pub thumbnail_url: Option<String>,
    /// Width of the thumbnail, in pixels.
    pub thumbnail_width: Option<u64>,
    /// Height of the thumbnail, in pixels.
    pub thumbnail_height: Option<u64>,
    /// The provider that supplied this entity's data.
    pub api_provider: APIProvider,
    /// The platforms whose links this one entity backs.
    pub platforms: Vec<Platform>,
}

pub struct EntityView {
    pub id: Seq<char>,
    pub entity_type: EntityType,
    pub title: Option<Seq<char>>,
    pub artist_name: Option<Seq<char>>,
    pub thumbnail_url: Option<Seq<char>>,
    pub thumbnail_width: Option<u64>,
    pub thumbnail_height: Option<u64>,
    pub api_provider: APIProvider,
    pub platforms: Seq<Platform>,
}

impl View for Entity {
    type V = EntityView;

    open spec fn view(&self) -> EntityView {
        EntityView {
            id: self.id@,
            entity_type: self.entity_type,
            title: opt_text(self.title),
            artist_name: opt_text(self.artist_name),
            thumbnail_url: opt_text(self.thumbnail_url),
            thumbnail_width: self.thumbnail_width,
            thumbnail_height: self.thumbnail_height,
            api_provider: self.api_provider,
            platforms: self.platforms@,
        }
    }
}

/// The answer of the links endpoint: the matches of one queried entity on
/// every platform that has one, and the data of the entities behind them.
#[derive(Clone, Debug)]
pub struct LinksAPIResult {
    /// The key of the queried entity in `entities_by_unique_id`.
    pub entity_unique_id: String,
    /// The country whose catalogues were searched.
    pub user_country: String,
    /// A web page that shows all the matches.
    pub page_url: String,
    /// For each platform with a match, its link; each platform at most once.
    pub links_by_platform: Vec<(Platform, Link)>,
    /// The entities behind the links, by their keys; each key at most once.
    pub entities_by_unique_id: Vec<(String, Entity)>,
}

pub struct LinksAPIResultView {
    pub entity_unique_id: Seq<char>,
    pub user_country: Seq<char>,
    pub page_url: Seq<char>,
    pub links_by_platform: Seq<(Platform, LinkView)>,
    pub entities_by_unique_id: Seq<(Seq<char>, EntityView)>,
}

impl LinksAPIResultView {
    /// The link of platform `p`, if it has one.
    pub open spec fn platform_link(self, p: Platform) -> Option<LinkView> {
        lookup(self.links_by_platform, p)
    }

    /// The entity behind the link of platform `p`: none where `p` has no link,
    /// or where its link names a key that has no entity.
    pub open spec fn platform_entity(self, p: Platform) -> Option<EntityView> {
        match self.platform_link(p) {
            Some(l) => lookup(self.entities_by_unique_id, l.entity_unique_id),
            None => None,
        }
    }

    /// Both tables are maps: no platform and no entity key occurs twice.
    pub open spec fn wf(self) -> bool {
        keys_unique(self.links_by_platform) && keys_unique(self.entities_by_unique_id)
    }
}

impl View for LinksAPIResult {
    type V = LinksAPIResultView;

    open spec fn view(&self) -> LinksAPIResultView {
        LinksAPIResultView {
            entity_unique_id: self.entity_unique_id@,
            user_country: self.user_country@,
            page_url: self.page_url@,
            links_by_platform: self.links_by_platform@.map_values(
                |e: (Platform, Link)| (e.0, e.1@),
            ),
            entities_by_unique_id: self.entities_by_unique_id@.map_values(
                |e: (String, Entity)| (e.0@, e.1@),
            ),
        }
    }
}

impl LinksAPIResult {
    /// The link of `platform`, if the result has one.
    pub fn get_platform_url(&self, platform: &Platform) -> (r: Option<&Link>)
        ensures
            match r {
                Some(l) => self@.platform_link(*platform) == Some(l@),
                None => self@.platform_link(*platform) is None,
            },
    {
        let ghost links = self@.links_by_platform;
        let n = self.links_by_platform.len();
        let mut i: usize = 0;
        assert(links.subrange(0, n as int) =~= links);
        while i < n
            invariant
                n == self.links_by_platform@.len(),
                n == links.len(),
                links == self@.links_by_platform,
                i <= n,
                lookup(links, *platform) == lookup(links.subrange(i as int, n as int), *platform),
            decreases n - i,
        {
            let entry = &self.links_by_platform[i];
            assert(links.subrange(i as int, n as int).drop_first()
                =~= links.subrange(i + 1, n as int));
            if entry.0 == *platform {
                return Some(&entry.1);
            }
            i = i + 1;
        }
        None
    }

    /// The entity behind the link of `platform`: `None` where the platform has
    /// no link, or where no entity is stored under the key its link names.
    pub fn get_platform_entity(&self, platform: &Platform) -> (r: Option<&Entity>)
        ensures
            match r {
                Some(e) => self@.platform_entity(*platform) == Some(e@),
                None => self@.platform_entity(*platform) is None,
            },
    {
        match self.get_platform_url(platform) {
            None => None,
            Some(link) => {
                let ghost entities = self@.entities_by_unique_id;
                let key = &link.entity_unique_id;
                let n = self.entities_by_unique_id.len();
                let mut i: usize = 0;
                assert(entities.subrange(0, n as int) =~= entities);
                while i < n
                    invariant
                        n == self.entities_by_unique_id@.len(),
                        n == entities.len(),
                        self@.platform_link(*platform) == Some(link@),
                        key@ == link.entity_unique_id@,
                        entities == self@.entities_by_unique_id,
                        i <= n,
                        lookup(entities, key@) == lookup(
                            entities.subrange(i as int, n as int),
                            key@,
                        ),
                    decreases n - i,
                {
                    let entry = &self.entities_by_unique_id[i];
                    assert(entities.subrange(i as int, n as int).drop_first()
                        =~= entities.subrange(i + 1, n as int));
                    if entry.0 == *key {
                        assert(entities.subrange(i as int, n as int)[0] == (
                            entry.0@,
                            entry.1@,
                        ));
                        return Some(&entry.1);
                    }
                    i = i + 1;
                }
                None
            },
        }
    }
}

} // verus!
