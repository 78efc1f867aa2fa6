use vstd::prelude::*;

use crate::errors::OdesliError;
use crate::text::same_text;

verus! {

/// Whether an entity is a single song or a whole album.
#[derive(Clone, Copy, Debug, PartialEq, Eq, Structural)]
pub enum EntityType {
    Song,
    Album,
}

impl EntityType {
    /// The token that stands for this entity type on the wire.
    pub open spec fn wire(self) -> Seq<char> {
        match self {
            EntityType::Album => "album"@,
            EntityType::Song => "song"@,
        }
    }

    /// The entity type whose wire token is `s`, if there is one.
    pub open spec fn from_wire(s: Seq<char>) -> Option<EntityType> {
        if s == "album"@ {
            Some(EntityType::Album)
        } else if s == "song"@ {
            Some(EntityType::Song)
        } else {
            None
        }
    }

    /// The entity types in declaration order.
    pub open spec fn listing() -> Seq<EntityType> {
        seq![EntityType::Song, EntityType::Album]
    }

    /// Every entity type, in declaration order.
    pub fn all() -> (r: Vec<EntityType>)
        ensures
            r@ == EntityType::listing(),
    {
        let r = vec![EntityType::Song, EntityType::Album];
        assert(r@ =~= EntityType::listing());
        r
    }

    pub fn as_str(&self) -> (r: &'static str)
        ensures
            r@ == self.wire(),
    {
        match self {
            EntityType::Album => "album",
            EntityType::Song => "song",
        }
    }

    /// Reads a wire token. A token that is neither "album" nor "song" is an
    /// error that carries the token.
    pub fn from_str(s: &str) -> (r: Result<EntityType, OdesliError>)
        ensures
            match r {
                Ok(t) => EntityType::from_wire(s@) == Some(t),
                Err(e) => EntityType::from_wire(s@) is None && (e matches OdesliError::UnknownEntityType(t) && t@ == s@),
            },
    {
        if same_text(s, "album") {
            Ok(EntityType::Album)
        } else if same_text(s, "song") {
            Ok(EntityType::Song)
        } else {
            Err(OdesliError::UnknownEntityType(String::from_str(s)))
        }
    }
}

impl std::str::FromStr for EntityType {
    type Err = OdesliError;

    fn from_str(s: &str) -> Result<EntityType, OdesliError> {
        EntityType::from_str(s)
    }
}

/// Reading back the wire token of an entity type gives that entity type.
pub proof fn lemma_entity_type_round_trip(t: EntityType)
    ensures
        EntityType::from_wire(t.wire()) == Some(t),
{
    reveal_strlit("album");
    reveal_strlit("song");
    assert("album"@.len() != "song"@.len());
}

} // verus!
