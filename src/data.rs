//! The domain aggregates: movies, their cast roles and actors.

use crate::time::Timestamp;
use vstd::prelude::*;

verus! {

/// An actor, identified by the pair of names.
#[derive(Clone, Debug)]
pub struct Actor {
    pub last_name: String,
    pub first_name: String,
}

/// A character played in a movie.
#[derive(Clone, Debug)]
pub struct Character {
    pub name: String,
}

/// One actor's part in a movie, with the characters played.
#[derive(Clone, Debug)]
pub struct Role {
    pub actor: Actor,
    pub characters: Vec<Character>,
}

/// What identifies and describes a movie.
#[derive(Clone, Debug)]
pub struct MovieMetadata {
    pub title: String,
    pub imdb_id: Option<String>,
    pub published_at: Timestamp,
}

/// A movie with its cast, roles in storage order.
#[derive(Clone, Debug)]
pub struct Movie {
    pub meta: MovieMetadata,
    pub roles: Vec<Role>,
}

/// The abstract value of an [`Actor`].
pub struct ActorView {
    pub last_name: Seq<char>,
    pub first_name: Seq<char>,
}

/// The abstract value of a [`Role`]: the actor and the character names.
pub struct RoleView {
    pub actor: ActorView,
    pub characters: Seq<Seq<char>>,
}

/// The abstract value of a [`MovieMetadata`].
pub struct MovieMetadataView {
    pub title: Seq<char>,
    pub imdb_id: Option<Seq<char>>,
    pub published_at: Timestamp,
}

/// The abstract value of a [`Movie`].
pub struct MovieView {
    pub meta: MovieMetadataView,
    pub roles: Seq<RoleView>,
}

/// The characters of a string vector.
pub open spec fn texts(v: Seq<String>) -> Seq<Seq<char>> {
    v.map_values(|s: String| s@)
}

/// The names of a character vector.
pub open spec fn character_names(v: Seq<Character>) -> Seq<Seq<char>> {
    v.map_values(|c: Character| c.name@)
}

/// The view of an optional string.
pub open spec fn opt_text(o: Option<String>) -> Option<Seq<char>> {
    match o {
        Some(s) => Some(s@),
        None => None,
    }
}

impl View for Actor {
    type V = ActorView;

    open spec fn view(&self) -> ActorView {
        ActorView { last_name: self.last_name@, first_name: self.first_name@ }
    }
}

impl View for Character {
    type V = Seq<char>;

    open spec fn view(&self) -> Seq<char> {
        self.name@
    }
}

impl View for Role {
    type V = RoleView;

    open spec fn view(&self) -> RoleView {
        RoleView { actor: self.actor@, characters: character_names(self.characters@) }
    }
}

impl View for MovieMetadata {
    type V = MovieMetadataView;

    open spec fn view(&self) -> MovieMetadataView {
        MovieMetadataView {
            title: self.title@,
            imdb_id: opt_text(self.imdb_id),
            published_at: self.published_at,
        }
    }
}

impl View for Movie {
    type V = MovieView;

    open spec fn view(&self) -> MovieView {
        MovieView { meta: self.meta@, roles: self.roles@.map_values(|r: Role| r@) }
    }
}

impl MovieMetadata {
    /// The timestamp names an existing instant.
    pub open spec fn wf(&self) -> bool {
        self.published_at.wf()
    }
}

impl Movie {
    /// The timestamp names an existing instant.
    pub open spec fn wf(&self) -> bool {
        self.meta.wf()
    }
}

} // verus!
