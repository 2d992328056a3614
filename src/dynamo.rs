//! Row kinds, the typed rows of the table, and the encoder from domain
//! aggregates to rows.

use crate::data::{
    character_names, texts, Actor, ActorView, Character, Movie, MovieMetadataView, MovieView,
    RoleView,
};
use crate::keys::{
    actor_key, actor_key_string, actor_prefix, actor_prefix_string, meta_key, meta_key_string,
    movie_partition_key, movie_pk, movie_prefix, movie_prefix_string,
};
use crate::text::{starts_with, text_eq};
use crate::time::Timestamp;
use vstd::prelude::*;

verus! {

/// Why a row could not be decoded.
#[derive(Clone, Copy, Debug, PartialEq, Eq, Structural)]
pub enum CodecError {
    /// The row lacks its partition key or its sort key.
    MissingKey,
    /// The keys match no known row kind.
    UnknownRowKind,
    /// A field that the row kind requires is absent or has the wrong shape.
    FieldMismatch,
    /// The row holds a field that its kind does not have.
    UnexpectedField,
}

/// The closed set of row kinds, told apart by the shape of the keys.
#[derive(Clone, Copy, Debug, PartialEq, Eq, Structural)]
pub enum DynamoTableRowKind {
    MovieMeta,
    MovieActor,
    ActorMeta,
}

/// The partition key prefix and the sort key (or its prefix) of a kind.
pub open spec fn kind_prefixes(kind: DynamoTableRowKind) -> (Seq<char>, Seq<char>) {
    match kind {
        DynamoTableRowKind::MovieMeta => (movie_prefix(), meta_key()),
        DynamoTableRowKind::MovieActor => (movie_prefix(), actor_prefix()),
        DynamoTableRowKind::ActorMeta => (actor_prefix(), meta_key()),
    }
}

/// The kind of the row with keys `pk` and `sk`, if any.
pub open spec fn row_kind_of(pk: Seq<char>, sk: Seq<char>) -> Option<DynamoTableRowKind> {
    if movie_prefix().is_prefix_of(pk) {
        if sk == meta_key() {
            Some(DynamoTableRowKind::MovieMeta)
        } else if actor_prefix().is_prefix_of(sk) {
            Some(DynamoTableRowKind::MovieActor)
        } else {
            None
        }
    } else if actor_prefix().is_prefix_of(pk) {
        if sk == meta_key() {
            Some(DynamoTableRowKind::ActorMeta)
        } else {
            None
        }
    } else {
        None
    }
}

impl DynamoTableRowKind {
    /// The partition key prefix and the sort key (or its prefix) of this kind.
    pub fn get_prefixes(&self) -> (r: (String, String))
        ensures
            (r.0@, r.1@) == kind_prefixes(*self),
    {
        match self {
            DynamoTableRowKind::MovieMeta => (movie_prefix_string(), meta_key_string()),
            DynamoTableRowKind::MovieActor => (movie_prefix_string(), actor_prefix_string()),
            DynamoTableRowKind::ActorMeta => (actor_prefix_string(), meta_key_string()),
        }
    }

    /// Classifies a pair of keys: a movie partition key with sort key `meta`
    /// or `actor::…`, or an actor partition key with sort key `meta`.
    pub fn get_row_kind_by_keys(pk: &str, sk: &str) -> (r: Result<DynamoTableRowKind, CodecError>)
        ensures
            match row_kind_of(pk@, sk@) {
                Some(k) => r == Ok::<DynamoTableRowKind, CodecError>(k),
                None => r == Err::<DynamoTableRowKind, CodecError>(CodecError::UnknownRowKind),
            },
    {
        let movie_pk = DynamoTableRowKind::MovieMeta.get_prefixes().0;
        let movie_meta_sk = DynamoTableRowKind::MovieMeta.get_prefixes().1;
        let movie_actor_sk = DynamoTableRowKind::MovieActor.get_prefixes().1;
        let actor_pk = DynamoTableRowKind::ActorMeta.get_prefixes().0;
        let actor_meta_sk = DynamoTableRowKind::ActorMeta.get_prefixes().1;
        if starts_with(pk, movie_pk.as_str()) {
            if text_eq(sk, movie_meta_sk.as_str()) {
                Ok(DynamoTableRowKind::MovieMeta)
            } else if starts_with(sk, movie_actor_sk.as_str()) {
                Ok(DynamoTableRowKind::MovieActor)
            } else {
                Err(CodecError::UnknownRowKind)
            }
        } else if starts_with(pk, actor_pk.as_str()) {
            if text_eq(sk, actor_meta_sk.as_str()) {
                Ok(DynamoTableRowKind::ActorMeta)
            } else {
                Err(CodecError::UnknownRowKind)
            }
        } else {
            Err(CodecError::UnknownRowKind)
        }
    }
}

/// The payload of a movie partition row.
#[derive(Clone, Debug)]
pub enum MovieKindItem {
    Meta { title: String, published_at: Timestamp, imdb_id: Option<String> },
    Actor { characters: Vec<String> },
}

/// The payload of an actor partition row.
#[derive(Clone, Debug)]
pub enum ActorKindItem {
    Meta { last_name: String, first_name: String },
}

/// The payload of a row, by partition.
#[derive(Clone, Debug)]
pub enum DynamoTableItemKind {
    Movie { kind: MovieKindItem },
    Actor { kind: ActorKindItem },
}

/// A typed row: its keys and its kind-specific payload.
#[derive(Clone, Debug)]
pub struct DynamoTableItem {
    pub pk: String,
    pub sk: String,
    pub kind: DynamoTableItemKind,
}

/// The abstract payload of a row.
pub enum PayloadView {
    MovieMeta { title: Seq<char>, published_at: Timestamp, imdb_id: Option<Seq<char>> },
    MovieActor { characters: Seq<Seq<char>> },
    ActorMeta { last_name: Seq<char>, first_name: Seq<char> },
}

/// The abstract value of a typed row.
pub struct ItemView {
    pub pk: Seq<char>,
    pub sk: Seq<char>,
    pub payload: PayloadView,
}

impl PayloadView {
    /// The row kind this payload belongs to.
    pub open spec fn kind(self) -> DynamoTableRowKind {
        match self {
            PayloadView::MovieMeta { .. } => DynamoTableRowKind::MovieMeta,
            PayloadView::MovieActor { .. } => DynamoTableRowKind::MovieActor,
            PayloadView::ActorMeta { .. } => DynamoTableRowKind::ActorMeta,
        }
    }
}

/// The abstract payload of a row's kind-specific part.
pub open spec fn payload_of(kind: DynamoTableItemKind) -> PayloadView {
    match kind {
        DynamoTableItemKind::Movie { kind: MovieKindItem::Meta { title, published_at, imdb_id } } =>
            PayloadView::MovieMeta {
            title: title@,
            published_at,
            imdb_id: crate::data::opt_text(imdb_id),
        },
        DynamoTableItemKind::Movie { kind: MovieKindItem::Actor { characters } } =>
            PayloadView::MovieActor { characters: texts(characters@) },
        DynamoTableItemKind::Actor { kind: ActorKindItem::Meta { last_name, first_name } } =>
            PayloadView::ActorMeta { last_name: last_name@, first_name: first_name@ },
    }
}

impl View for DynamoTableItem {
    type V = ItemView;

    open spec fn view(&self) -> ItemView {
        ItemView { pk: self.pk@, sk: self.sk@, payload: payload_of(self.kind) }
    }
}

/// The metadata row of a movie.
pub open spec fn movie_meta_item(m: MovieMetadataView) -> ItemView {
    ItemView {
        pk: movie_pk(m.title, m.published_at.year as int),
        sk: meta_key(),
        payload: PayloadView::MovieMeta {
            title: m.title,
            published_at: m.published_at,
            imdb_id: m.imdb_id,
        },
    }
}

/// The row that records a role in a movie.
pub open spec fn movie_actor_item(m: MovieMetadataView, r: RoleView) -> ItemView {
    ItemView {
        pk: movie_pk(m.title, m.published_at.year as int),
        sk: actor_key(r.actor.last_name, r.actor.first_name),
        payload: PayloadView::MovieActor { characters: r.characters },
    }
}

/// The metadata row of an actor.
pub open spec fn actor_meta_item(a: ActorView) -> ItemView {
    ItemView {
        pk: actor_key(a.last_name, a.first_name),
        sk: meta_key(),
        payload: PayloadView::ActorMeta { last_name: a.last_name, first_name: a.first_name },
    }
}

/// The rows of a movie in encoder order: the metadata row, one role row per
/// role, then one actor row per role (repeated when two roles share an actor).
pub open spec fn movie_items(m: MovieView) -> Seq<ItemView> {
    let n = m.roles.len();
    Seq::new(
        (1 + 2 * n) as nat,
        |i: int|
            if i == 0 {
                movie_meta_item(m.meta)
            } else if i <= n {
                movie_actor_item(m.meta, m.roles[i - 1])
            } else {
                actor_meta_item(m.roles[i - 1 - n].actor)
            },
    )
}

/// The views of a sequence of typed rows.
pub open spec fn item_views(items: Seq<DynamoTableItem>) -> Seq<ItemView> {
    items.map_values(|i: DynamoTableItem| i@)
}

fn clone_names(characters: &Vec<Character>) -> (r: Vec<String>)
    ensures
        texts(r@) == character_names(characters@),
{
    let mut r: Vec<String> = Vec::new();
    let mut i: usize = 0;
    while i < characters.len()
        invariant
            i <= characters@.len(),
            r@.len() == i,
            forall|k: int| 0 <= k < i ==> #[trigger] r@[k]@ == characters@[k].name@,
        decreases characters@.len() - i,
    {
        r.push(characters[i].name.clone());
        i += 1;
    }
    assert(texts(r@) =~= character_names(characters@));
    r
}

impl DynamoTableItem {
    /// All rows of a movie, in encoder order (see [`movie_items`]).
    pub fn new_movie(movie: &Movie) -> (r: Vec<DynamoTableItem>)
        ensures
            item_views(r@) == movie_items(movie@),
    {
        let ghost m = movie@;
        let n = movie.roles.len();
        let meta = &movie.meta;
        let movie_item = DynamoTableItem {
            pk: movie_partition_key(meta.title.as_str(), &meta.published_at),
            sk: meta_key_string(),
            kind: DynamoTableItemKind::Movie {
                kind: MovieKindItem::Meta {
                    title: meta.title.clone(),
                    published_at: meta.published_at,
                    imdb_id: meta.imdb_id.clone(),
                },
            },
        };
        let mut items = vec![movie_item];
        let mut i: usize = 0;
        while i < n
            invariant
                n == movie.roles@.len(),
                m == movie@,
                i <= n,
                items@.len() == 1 + i,
                forall|k: int| 0 <= k < 1 + i ==> #[trigger] items@[k]@ == movie_items(m)[k],
            decreases n - i,
        {
            let role = &movie.roles[i];
            let item = DynamoTableItem {
                pk: movie_partition_key(movie.meta.title.as_str(), &movie.meta.published_at),
                sk: actor_key_string(role.actor.last_name.as_str(), role.actor.first_name.as_str()),
                kind: DynamoTableItemKind::Movie {
                    kind: MovieKindItem::Actor { characters: clone_names(&role.characters) },
                },
            };
            assert(m.roles[i as int] == movie.roles@[i as int]@);
            assert(item@ == movie_items(m)[1 + i as int]);
            items.push(item);
            i += 1;
        }
        let mut j: usize = 0;
        while j < n
            invariant
                n == movie.roles@.len(),
                m == movie@,
                j <= n,
                items@.len() == 1 + n + j,
                forall|k: int| 0 <= k < 1 + n + j ==> #[trigger] items@[k]@ == movie_items(m)[k],
            decreases n - j,
        {
            items.push(DynamoTableItem::new_actor(&movie.roles[j].actor));
            j += 1;
        }
        assert(item_views(items@) =~= movie_items(m));
        items
    }

    /// The metadata row of an actor.
    pub fn new_actor(actor: &Actor) -> (r: DynamoTableItem)
        ensures
            r@ == actor_meta_item(actor@),
    {
        DynamoTableItem {
            pk: actor_key_string(actor.last_name.as_str(), actor.first_name.as_str()),
            sk: meta_key_string(),
            kind: DynamoTableItemKind::Actor {
                kind: ActorKindItem::Meta {
                    last_name: actor.last_name.clone(),
                    first_name: actor.first_name.clone(),
                },
            },
        }
    }
}

} // verus!

verus! {

/// Every row the encoder makes has keys of its own kind: a movie's metadata
/// row resolves to `MovieMeta`, a role row to `MovieActor`, an actor's row to
/// `ActorMeta`, whatever the title, year and names.
pub proof fn lemma_encoded_keys_resolve(
    title: Seq<char>,
    year: int,
    last_name: Seq<char>,
    first_name: Seq<char>,
)
    ensures
        row_kind_of(movie_pk(title, year), meta_key()) == Some(DynamoTableRowKind::MovieMeta),
        row_kind_of(movie_pk(title, year), actor_key(last_name, first_name)) == Some(
            DynamoTableRowKind::MovieActor,
        ),
        row_kind_of(actor_key(last_name, first_name), meta_key()) == Some(
            DynamoTableRowKind::ActorMeta,
        ),
{
    let mpk = movie_pk(title, year);
    let ak = actor_key(last_name, first_name);
    assert(mpk.subrange(0, 7) =~= movie_prefix());
    assert(ak.subrange(0, 7) =~= actor_prefix());
    assert(ak[0] != meta_key()[0]);
    assert(ak[0] != movie_prefix()[0]);
}

/// The resolver accepts exactly the documented key shapes: a partition key
/// starting with `movie::` with sort key `meta` or one starting with
/// `actor::`, or a partition key starting with `actor::` with sort key
/// `meta`; every other pair fails.
pub proof fn lemma_row_kind_total(pk: Seq<char>, sk: Seq<char>)
    ensures
        row_kind_of(pk, sk) == Some(DynamoTableRowKind::MovieMeta) <==> (movie_prefix().is_prefix_of(
            pk,
        ) && sk == meta_key()),
        row_kind_of(pk, sk) == Some(DynamoTableRowKind::MovieActor) <==> (
        movie_prefix().is_prefix_of(pk) && actor_prefix().is_prefix_of(sk)),
        row_kind_of(pk, sk) == Some(DynamoTableRowKind::ActorMeta) <==> (actor_prefix().is_prefix_of(
            pk,
        ) && sk == meta_key()),
        row_kind_of(pk, sk) is None <==> !((movie_prefix().is_prefix_of(pk) && (sk == meta_key()
            || actor_prefix().is_prefix_of(sk))) || (actor_prefix().is_prefix_of(pk) && sk
            == meta_key())),
{
    if actor_prefix().is_prefix_of(sk) {
        assert(sk[0] != meta_key()[0]);
    }
    if movie_prefix().is_prefix_of(pk) {
        assert(pk[0] != actor_prefix()[0]);
    }
}

} // verus!
