//! Whole aggregates over the four storage primitives (`get`, `put`, `query`,
//! `delete`), which the caller performs.
//!
//! Reading a movie is a sequence of storage requests; [`MovieReader`] decides
//! each next request from the replies so far, and the caller carries them out.

use crate::data::{
    character_names, texts, Actor, ActorView, Character, Movie, MovieMetadata, MovieMetadataView,
    MovieView, Role, RoleView,
};
use crate::dynamo::{
    movie_items, ActorKindItem, CodecError, DynamoTableItem, DynamoTableItemKind, ItemView,
    MovieKindItem, PayloadView,
};
use crate::keys::{
    actor_key, actor_meta_key_by_name, actor_name, actor_prefix, meta_key, movie_meta_key,
    movie_actor_query_prefix, movie_pk,
};
use crate::row::{decode_row, row_of, Row, RowView};
use crate::time::Timestamp;
use vstd::prelude::*;
use vstd::string::StrSliceExecFns;

verus! {

/// Why a repository operation failed.
#[derive(Clone, Debug)]
pub enum RepoError {
    /// A row that the operation needs is absent.
    NotFound,
    /// A row read back could not be decoded, or is not of the kind asked for.
    Codec(CodecError),
    /// The storage primitive failed; its message.
    StorageUnavailable(String),
}

/// A storage primitive to perform.
#[derive(Clone, Debug)]
pub enum Request {
    /// Fetch the row with these keys.
    Get { pk: String, sk: String },
    /// List the rows of partition `pk` whose sort key starts with `sk_prefix`.
    Query { pk: String, sk_prefix: String },
}

/// What a storage primitive returned.
#[derive(Clone, Debug)]
pub enum Reply {
    /// The answer to a `Get`: the row, or `None` when there is none.
    Item(Option<Row>),
    /// The answer to a `Query`.
    Items(Vec<Row>),
    /// The primitive failed, with its message.
    Failed(String),
}

/// The next thing a reader asks for.
#[derive(Debug)]
pub enum ReadStep {
    /// Perform this request and hand its reply to the reader.
    Request(Request),
    /// The read is over, with this result.
    Done(Result<Movie, RepoError>),
}

/// The payload of a metadata row read back for a movie.
pub open spec fn meta_of_row(row: RowView) -> Result<MovieMetadataView, CodecError> {
    match decode_row(row) {
        Ok(item) => match item.payload {
            PayloadView::MovieMeta { title, published_at, imdb_id } => Ok(
                MovieMetadataView { title, imdb_id, published_at },
            ),
            _ => Err(CodecError::UnknownRowKind),
        },
        Err(e) => Err(e),
    }
}

/// A role row read back: the actor's name (the sort key without `actor::`)
/// and the character names.
pub open spec fn role_of_row(row: RowView) -> Result<(Seq<char>, Seq<Seq<char>>), CodecError> {
    match decode_row(row) {
        Ok(item) => match item.payload {
            PayloadView::MovieActor { characters } => Ok(
                (item.sk.subrange(actor_prefix().len() as int, item.sk.len() as int), characters),
            ),
            _ => Err(CodecError::UnknownRowKind),
        },
        Err(e) => Err(e),
    }
}

/// The actor of an actor metadata row read back.
pub open spec fn actor_of_row(row: RowView) -> Result<ActorView, CodecError> {
    match decode_row(row) {
        Ok(item) => match item.payload {
            PayloadView::ActorMeta { last_name, first_name } => Ok(
                ActorView { last_name, first_name },
            ),
            _ => Err(CodecError::UnknownRowKind),
        },
        Err(e) => Err(e),
    }
}

/// The role rows of a query decoded in order, or the first error.
pub open spec fn roles_of_rows(rows: Seq<RowView>) -> Result<
    Seq<(Seq<char>, Seq<Seq<char>>)>,
    CodecError,
>
    decreases rows.len(),
{
    if rows.len() == 0 {
        Ok(Seq::empty())
    } else {
        match roles_of_rows(rows.drop_last()) {
            Err(e) => Err(e),
            Ok(done) => match role_of_row(rows.last()) {
                Err(e) => Err(e),
                Ok(r) => Ok(done.push(r)),
            },
        }
    }
}

/// The actor rows decoded in order, or the first error.
pub open spec fn actors_of_rows(rows: Seq<RowView>) -> Result<Seq<ActorView>, CodecError>
    decreases rows.len(),
{
    if rows.len() == 0 {
        Ok(Seq::empty())
    } else {
        match actors_of_rows(rows.drop_last()) {
            Err(e) => Err(e),
            Ok(done) => match actor_of_row(rows.last()) {
                Err(e) => Err(e),
                Ok(a) => Ok(done.push(a)),
            },
        }
    }
}

/// A movie put together from its metadata row, its role rows, and one actor
/// row per role row, in the same order.
pub open spec fn reassemble(meta_row: RowView, role_rows: Seq<RowView>, actor_rows: Seq<RowView>) -> Result<
    MovieView,
    CodecError,
> {
    match meta_of_row(meta_row) {
        Err(e) => Err(e),
        Ok(meta) => match roles_of_rows(role_rows) {
            Err(e) => Err(e),
            Ok(entries) => match actors_of_rows(actor_rows) {
                Err(e) => Err(e),
                Ok(actors) => Ok(
                    MovieView {
                        meta,
                        roles: Seq::new(
                            entries.len(),
                            |i: int| RoleView { actor: actors[i], characters: entries[i].1 },
                        ),
                    },
                ),
            },
        },
    }
}

/// The rows that store a movie, in write order: each typed row of
/// [`movie_items`] as the fields it is stored as.
pub open spec fn movie_rows(m: MovieView) -> Seq<RowView> {
    movie_items(m).map_values(|i: ItemView| row_of(i))
}

/// The views of a sequence of rows.
pub open spec fn row_views(rows: Seq<Row>) -> Seq<RowView> {
    rows.map_values(|r: Row| r@)
}

} // verus!

verus! {

proof fn lemma_roles_of_rows(rows: Seq<RowView>, entries: Seq<(Seq<char>, Seq<Seq<char>>)>)
    requires
        rows.len() == entries.len(),
        forall|i: int| 0 <= i < rows.len() ==> role_of_row(#[trigger] rows[i]) == Ok::<
            (Seq<char>, Seq<Seq<char>>),
            CodecError,
        >(entries[i]),
    ensures
        roles_of_rows(rows) == Ok::<Seq<(Seq<char>, Seq<Seq<char>>)>, CodecError>(entries),
    decreases rows.len(),
{
    if rows.len() > 0 {
        let n = rows.len() - 1;
        assert(role_of_row(rows[n as int]) == Ok::<(Seq<char>, Seq<Seq<char>>), CodecError>(
            entries[n as int],
        ));
        assert forall|i: int| 0 <= i < n implies role_of_row(#[trigger] rows.drop_last()[i]) == Ok::<
            (Seq<char>, Seq<Seq<char>>),
            CodecError,
        >(entries.drop_last()[i]) by {
            assert(rows.drop_last()[i] == rows[i]);
        }
        lemma_roles_of_rows(rows.drop_last(), entries.drop_last());
        assert(entries.drop_last().push(entries.last()) =~= entries);
    } else {
        assert(entries =~= Seq::<(Seq<char>, Seq<Seq<char>>)>::empty());
    }
}

proof fn lemma_actors_of_rows(rows: Seq<RowView>, actors: Seq<ActorView>)
    requires
        rows.len() == actors.len(),
        forall|i: int| 0 <= i < rows.len() ==> actor_of_row(#[trigger] rows[i]) == Ok::<
            ActorView,
            CodecError,
        >(actors[i]),
    ensures
        actors_of_rows(rows) == Ok::<Seq<ActorView>, CodecError>(actors),
    decreases rows.len(),
{
    if rows.len() > 0 {
        let n = rows.len() - 1;
        assert(actor_of_row(rows[n as int]) == Ok::<ActorView, CodecError>(actors[n as int]));
        assert forall|i: int| 0 <= i < n implies actor_of_row(#[trigger] rows.drop_last()[i]) == Ok::<
            ActorView,
            CodecError,
        >(actors.drop_last()[i]) by {
            assert(rows.drop_last()[i] == rows[i]);
        }
        lemma_actors_of_rows(rows.drop_last(), actors.drop_last());
        assert(actors.drop_last().push(actors.last()) =~= actors);
    } else {
        assert(actors =~= Seq::<ActorView>::empty());
    }
}

/// When every row of a movie decodes to the typed row it was written from,
/// the metadata row, the role rows and the actor rows reassemble the movie.
proof fn lemma_reassemble_movie_rows(m: MovieView)
    requires
        forall|k: int|
            0 <= k < movie_rows(m).len() ==> decode_row(#[trigger] movie_rows(m)[k]) == Ok::<
                ItemView,
                CodecError,
            >(movie_items(m)[k]),
    ensures
        ({
            let rows = movie_rows(m);
            let n = m.roles.len() as int;
            &&& reassemble(rows[0], rows.subrange(1, 1 + n), rows.subrange(1 + n, 1 + 2 * n))
                == Ok::<MovieView, CodecError>(m)
            &&& forall|i: int|
                0 <= i < n ==> role_of_row(#[trigger] rows[1 + i]) == Ok::<
                    (Seq<char>, Seq<Seq<char>>),
                    CodecError,
                >((actor_name(m.roles[i].actor.last_name, m.roles[i].actor.first_name), m.roles[i].characters))
        }),
{
    let rows = movie_rows(m);
    let n = m.roles.len() as int;
    assert(decode_row(rows[0]) == Ok::<ItemView, CodecError>(movie_items(m)[0]));
    let entries = Seq::new(
        n as nat,
        |i: int|
            (actor_name(m.roles[i].actor.last_name, m.roles[i].actor.first_name), m.roles[i].characters),
    );
    let actors = Seq::new(n as nat, |i: int| m.roles[i].actor);
    assert forall|i: int| 0 <= i < n implies role_of_row(#[trigger] rows[1 + i]) == Ok::<
        (Seq<char>, Seq<Seq<char>>),
        CodecError,
    >(entries[i]) by {
        assert(decode_row(rows[1 + i]) == Ok::<ItemView, CodecError>(movie_items(m)[1 + i]));
        let sk = actor_key(m.roles[i].actor.last_name, m.roles[i].actor.first_name);
        assert(sk.subrange(7, sk.len() as int) =~= actor_name(
            m.roles[i].actor.last_name,
            m.roles[i].actor.first_name,
        ));
    }
    let role_rows = rows.subrange(1, 1 + n);
    let actor_rows = rows.subrange(1 + n, 1 + 2 * n);
    assert forall|i: int| 0 <= i < n implies role_of_row(#[trigger] role_rows[i]) == Ok::<
        (Seq<char>, Seq<Seq<char>>),
        CodecError,
    >(entries[i]) by {
        assert(role_rows[i] == rows[1 + i]);
    }
    assert forall|i: int| 0 <= i < n implies actor_of_row(#[trigger] actor_rows[i]) == Ok::<
        ActorView,
        CodecError,
    >(actors[i]) by {
        assert(actor_rows[i] == rows[1 + n + i]);
        assert(decode_row(rows[1 + n + i]) == Ok::<ItemView, CodecError>(movie_items(m)[1 + n + i]));
    }
    lemma_roles_of_rows(role_rows, entries);
    lemma_actors_of_rows(actor_rows, actors);
    let r = reassemble(rows[0], role_rows, actor_rows);
    assert(r is Ok);
    assert(r->Ok_0.roles =~= m.roles);
}

/// The rows that store a movie, in write order (see [`movie_rows`]).
///
/// Reading them back gives the movie again: the first row decodes to the
/// metadata, role row `i` to the name under which the actor row is looked up
/// and the characters of role `i`, and actor row `i` to the actor of role `i`.
pub fn encode_movie(movie: &Movie) -> (r: Vec<Row>)
    requires
        movie.wf(),
    ensures
        row_views(r@) == movie_rows(movie@),
        ({
            let rows = row_views(r@);
            let m = movie@;
            let n = m.roles.len() as int;
            &&& reassemble(rows[0], rows.subrange(1, 1 + n), rows.subrange(1 + n, 1 + 2 * n))
                == Ok::<MovieView, CodecError>(m)
            &&& forall|i: int|
                0 <= i < n ==> role_of_row(#[trigger] rows[1 + i]) == Ok::<
                    (Seq<char>, Seq<Seq<char>>),
                    CodecError,
                >((actor_name(m.roles[i].actor.last_name, m.roles[i].actor.first_name), m.roles[i].characters))
        }),
{
    let ghost m = movie@;
    let items = DynamoTableItem::new_movie(movie);
    let mut rows: Vec<Row> = Vec::new();
    let mut i: usize = 0;
    while i < items.len()
        invariant
            m == movie@,
            m.meta.published_at.wf(),
            crate::dynamo::item_views(items@) == movie_items(m),
            i <= items@.len(),
            rows@.len() == i,
            forall|k: int|
                0 <= k < i ==> #[trigger] rows@[k]@ == row_of(movie_items(m)[k]) && decode_row(
                    rows@[k]@,
                ) == Ok::<ItemView, CodecError>(movie_items(m)[k]),
        decreases items@.len() - i,
    {
        let ghost item = movie_items(m)[i as int];
        assert(items@[i as int]@ == item);
        let ghost n = m.roles.len() as int;
        assert(crate::dynamo::item_views(items@).len() == items@.len());
        assert(i < 1 + 2 * n);
        proof {
            if i == 0 {
                assert(item == crate::dynamo::movie_meta_item(m.meta));
                crate::dynamo::lemma_encoded_keys_resolve(
                    m.meta.title,
                    m.meta.published_at.year as int,
                    Seq::empty(),
                    Seq::empty(),
                );
            } else if i <= n {
                let a = m.roles[i - 1].actor;
                assert(item == crate::dynamo::movie_actor_item(m.meta, m.roles[i - 1]));
                crate::dynamo::lemma_encoded_keys_resolve(
                    m.meta.title,
                    m.meta.published_at.year as int,
                    a.last_name,
                    a.first_name,
                );
            } else {
                let a = m.roles[i - 1 - n].actor;
                assert(item == crate::dynamo::actor_meta_item(a));
                crate::dynamo::lemma_encoded_keys_resolve(
                    m.meta.title,
                    m.meta.published_at.year as int,
                    a.last_name,
                    a.first_name,
                );
            }
        }
        let row = items[i].serialize();
        rows.push(row);
        i += 1;
    }
    assert(row_views(rows@) =~= movie_rows(m));
    proof {
        lemma_reassemble_movie_rows(m);
    }
    rows
}

} // verus!

verus! {

/// The abstract content of the table: rows by (partition key, sort key).
pub type StoreView = Map<(Seq<char>, Seq<char>), RowView>;

/// The keys of a row, when both are there as text.
pub open spec fn row_keys(row: RowView) -> Option<(Seq<char>, Seq<char>)> {
    match (
        crate::row::field(row, crate::row::FieldName::Pk),
        crate::row::field(row, crate::row::FieldName::Sk),
    ) {
        (
            Some(crate::row::FieldValueView::Text(pk)),
            Some(crate::row::FieldValueView::Text(sk)),
        ) => Some((pk, sk)),
        _ => None,
    }
}

/// An unconditional `put`: the row replaces whatever had its keys.
pub open spec fn put_row(s: StoreView, row: RowView) -> StoreView {
    match row_keys(row) {
        Some(k) => s.insert(k, row),
        None => s,
    }
}

/// The rows written one after another, in order.
pub open spec fn put_rows(s: StoreView, rows: Seq<RowView>) -> StoreView
    decreases rows.len(),
{
    if rows.len() == 0 {
        s
    } else {
        put_row(put_rows(s, rows.drop_last()), rows.last())
    }
}

/// The last row of `rows` with keys `k`, if any.
pub open spec fn last_with_keys(rows: Seq<RowView>, k: (Seq<char>, Seq<char>)) -> Option<RowView>
    decreases rows.len(),
{
    if rows.len() == 0 {
        None
    } else if row_keys(rows.last()) == Some(k) {
        Some(rows.last())
    } else {
        last_with_keys(rows.drop_last(), k)
    }
}

proof fn lemma_put_rows_at(s: StoreView, rows: Seq<RowView>, k: (Seq<char>, Seq<char>))
    ensures
        put_rows(s, rows).dom().contains(k) == (last_with_keys(rows, k) is Some || s.dom().contains(
            k,
        )),
        put_rows(s, rows).dom().contains(k) ==> put_rows(s, rows)[k] == match last_with_keys(
            rows,
            k,
        ) {
            Some(r) => r,
            None => s[k],
        },
    decreases rows.len(),
{
    if rows.len() > 0 {
        lemma_put_rows_at(s, rows.drop_last(), k);
    }
}

/// Writing the same rows a second time leaves the table as one writing did.
pub proof fn lemma_put_rows_twice(s: StoreView, rows: Seq<RowView>)
    ensures
        put_rows(put_rows(s, rows), rows) == put_rows(s, rows),
{
    let once = put_rows(s, rows);
    let twice = put_rows(once, rows);
    assert forall|k: (Seq<char>, Seq<char>)| #[trigger] twice.dom().contains(k) == once.dom().contains(k) by {
        lemma_put_rows_at(s, rows, k);
        lemma_put_rows_at(once, rows, k);
    }
    assert forall|k: (Seq<char>, Seq<char>)| #[trigger] twice.dom().contains(k) implies twice[k] == once[k] by {
        lemma_put_rows_at(s, rows, k);
        lemma_put_rows_at(once, rows, k);
    }
    assert(twice =~= once);
}

/// Storing a movie twice leaves the table as storing it once did, whatever
/// the table held before.
pub proof fn lemma_store_movie_twice(s: StoreView, m: MovieView)
    ensures
        put_rows(put_rows(s, movie_rows(m)), movie_rows(m)) == put_rows(s, movie_rows(m)),
{
    lemma_put_rows_twice(s, movie_rows(m));
}

} // verus!

verus! {

/// `r` failed with the decoding error `e`.
pub open spec fn is_codec_error<T>(r: Result<T, RepoError>, e: CodecError) -> bool {
    r matches Err(RepoError::Codec(x)) && x == e
}

/// The view of a decoded role row: the actor's name and the character names.
pub open spec fn entry_view(e: (String, Vec<String>)) -> (Seq<char>, Seq<Seq<char>>) {
    (e.0@, texts(e.1@))
}

/// A movie's metadata from its metadata row (see [`meta_of_row`]).
pub fn metadata_from_row(row: &Row) -> (r: Result<MovieMetadata, RepoError>)
    ensures
        match meta_of_row(row@) {
            Ok(m) => r matches Ok(x) && x@ == m,
            Err(e) => is_codec_error(r, e),
        },
{
    match DynamoTableItem::deserialize(row) {
        Ok(item) => match item.kind {
            DynamoTableItemKind::Movie { kind: MovieKindItem::Meta { title, published_at, imdb_id } } => Ok(
                MovieMetadata { title, imdb_id, published_at },
            ),
            _ => Err(RepoError::Codec(CodecError::UnknownRowKind)),
        },
        Err(e) => Err(RepoError::Codec(e)),
    }
}

/// The actor's name and the character names from a role row (see
/// [`role_of_row`]).
pub fn role_from_row(row: &Row) -> (r: Result<(String, Vec<String>), RepoError>)
    ensures
        match role_of_row(row@) {
            Ok(e) => r matches Ok(x) && entry_view(x) == e,
            Err(e) => is_codec_error(r, e),
        },
{
    proof {
        crate::row::lemma_decoded_kind_from_keys(row@);
    }
    match DynamoTableItem::deserialize(row) {
        Ok(item) => match item.kind {
            DynamoTableItemKind::Movie { kind: MovieKindItem::Actor { characters } } => {
                let sk = item.sk.as_str();
                let len = sk.unicode_len();
                let name = String::from_str(sk.substring_char(7, len));
                Ok((name, characters))
            },
            _ => Err(RepoError::Codec(CodecError::UnknownRowKind)),
        },
        Err(e) => Err(RepoError::Codec(e)),
    }
}

/// The actor from an actor metadata row (see [`actor_of_row`]).
pub fn actor_from_row(row: &Row) -> (r: Result<Actor, RepoError>)
    ensures
        match actor_of_row(row@) {
            Ok(a) => r matches Ok(x) && x@ == a,
            Err(e) => is_codec_error(r, e),
        },
{
    match DynamoTableItem::deserialize(row) {
        Ok(item) => match item.kind {
            DynamoTableItemKind::Actor { kind: ActorKindItem::Meta { last_name, first_name } } => Ok(
                Actor { last_name, first_name },
            ),
            _ => Err(RepoError::Codec(CodecError::UnknownRowKind)),
        },
        Err(e) => Err(RepoError::Codec(e)),
    }
}

/// The role rows of a query, decoded in order (see [`roles_of_rows`]).
pub fn roles_from_rows(rows: &Vec<Row>) -> (r: Result<Vec<(String, Vec<String>)>, RepoError>)
    ensures
        match roles_of_rows(row_views(rows@)) {
            Ok(es) => r matches Ok(x) && x@.map_values(|e: (String, Vec<String>)| entry_view(e)) == es,
            Err(e) => is_codec_error(r, e),
        },
{
    let mut out: Vec<(String, Vec<String>)> = Vec::new();
    let mut i: usize = 0;
    assert(row_views(rows@).take(0) =~= Seq::<RowView>::empty());
    assert(out@.map_values(|e: (String, Vec<String>)| entry_view(e)) =~= Seq::<
        (Seq<char>, Seq<Seq<char>>),
    >::empty());
    while i < rows.len()
        invariant
            i <= rows@.len(),
            roles_of_rows(row_views(rows@).take(i as int)) == Ok::<
                Seq<(Seq<char>, Seq<Seq<char>>)>,
                CodecError,
            >(out@.map_values(|e: (String, Vec<String>)| entry_view(e))),
        decreases rows@.len() - i,
    {
        let ghost done = out@.map_values(|e: (String, Vec<String>)| entry_view(e));
        assert(row_views(rows@).take(i + 1).drop_last() =~= row_views(rows@).take(i as int));
        assert(row_views(rows@).take(i + 1).last() == rows@[i as int]@);
        match role_from_row(&rows[i]) {
            Ok(e) => {
                out.push(e);
                assert(out@.map_values(|e: (String, Vec<String>)| entry_view(e)) =~= done.push(
                    entry_view(e),
                ));
            },
            Err(e) => {
                proof {
                    lemma_roles_of_rows_fail(row_views(rows@), i as int);
                }
                return Err(e);
            },
        }
        i += 1;
    }
    assert(row_views(rows@).take(i as int) =~= row_views(rows@));
    Ok(out)
}

proof fn lemma_roles_of_rows_fail(rows: Seq<RowView>, i: int)
    requires
        0 <= i < rows.len(),
        roles_of_rows(rows.take(i + 1)) is Err,
    ensures
        roles_of_rows(rows) == roles_of_rows(rows.take(i + 1)),
    decreases rows.len(),
{
    if rows.len() > i + 1 {
        assert(rows.drop_last().take(i + 1) =~= rows.take(i + 1));
        lemma_roles_of_rows_fail(rows.drop_last(), i);
    } else {
        assert(rows.take(i + 1) =~= rows);
    }
}

} // verus!

verus! {

/// Where a movie read stands: which reply it waits for, or finished.
#[derive(Clone, Copy, Debug, PartialEq, Eq, Structural)]
pub enum ReadPhase {
    /// Waits for the `Get` of the movie's metadata row.
    AwaitMeta,
    /// Waits for the `Query` of the movie's role rows.
    AwaitRoles,
    /// Waits for the `Get` of the actor row of the next role.
    AwaitActor,
    /// The read is over.
    Finished,
}

/// Whether a reader in phase `phase` takes `reply`: the answer to the request
/// it made, or a failure.
pub open spec fn accepts_reply(phase: ReadPhase, reply: Reply) -> bool {
    match phase {
        ReadPhase::AwaitMeta | ReadPhase::AwaitActor => reply is Item || reply is Failed,
        ReadPhase::AwaitRoles => reply is Items || reply is Failed,
        ReadPhase::Finished => false,
    }
}

/// `step` asks to fetch the row with keys `pk` and `sk`.
pub open spec fn asks_get(step: ReadStep, pk: Seq<char>, sk: Seq<char>) -> bool {
    step matches ReadStep::Request(Request::Get { pk: p, sk: s }) && p@ == pk && s@ == sk
}

/// `step` ends the read with a movie whose view is `m`.
pub open spec fn done_with(step: ReadStep, m: MovieView) -> bool {
    step matches ReadStep::Done(Ok(movie)) && movie@ == m
}

/// `step` ends the read with the decoding error `e`.
pub open spec fn done_with_codec_error(step: ReadStep, e: CodecError) -> bool {
    step matches ReadStep::Done(r) && is_codec_error(r, e)
}

/// Reads a movie: its metadata row, then one query for its role rows, then
/// the actor row of each role, one at a time, in the order of the query.
/// A missing row ends the read with `NotFound`; no partial movie is returned.
pub struct MovieReader {
    phase: ReadPhase,
    title: String,
    published_at: Timestamp,
    meta: Option<MovieMetadata>,
    entries: Vec<(String, Vec<String>)>,
    roles: Vec<Role>,
    meta_row: Ghost<RowView>,
    role_rows: Ghost<Seq<RowView>>,
    actor_rows: Ghost<Seq<RowView>>,
}

fn to_characters(names: &Vec<String>) -> (r: Vec<Character>)
    ensures
        character_names(r@) == texts(names@),
{
    let mut r: Vec<Character> = Vec::new();
    let mut i: usize = 0;
    while i < names.len()
        invariant
            i <= names@.len(),
            r@.len() == i,
            forall|k: int| 0 <= k < i ==> #[trigger] r@[k].name@ == names@[k]@,
        decreases names@.len() - i,
    {
        r.push(Character { name: names[i].clone() });
        i += 1;
    }
    assert(character_names(r@) =~= texts(names@));
    r
}

impl MovieReader {
    /// The phase of the read.
    pub closed spec fn phase_view(&self) -> ReadPhase {
        self.phase
    }

    /// The title asked for.
    pub closed spec fn title_view(&self) -> Seq<char> {
        self.title@
    }

    /// The publication time asked for; its year selects the movie.
    pub closed spec fn published_at_view(&self) -> Timestamp {
        self.published_at
    }

    /// The metadata read so far.
    pub closed spec fn meta_view(&self) -> Option<MovieMetadataView> {
        match self.meta {
            Some(m) => Some(m@),
            None => None,
        }
    }

    /// The role rows of the query, decoded: actor name and character names.
    pub closed spec fn entries_view(&self) -> Seq<(Seq<char>, Seq<Seq<char>>)> {
        self.entries@.map_values(|e: (String, Vec<String>)| entry_view(e))
    }

    /// The roles whose actor has been read, in query order.
    pub closed spec fn roles_view(&self) -> Seq<RoleView> {
        self.roles@.map_values(|r: Role| r@)
    }

    /// The reader's state is consistent with its phase.
    /// The rows received so far: the metadata row, the role rows of the
    /// query, and the actor rows in the order they came.
    pub closed spec fn replies_view(&self) -> (RowView, Seq<RowView>, Seq<RowView>) {
        (self.meta_row@, self.role_rows@, self.actor_rows@)
    }

    /// The reader's state is consistent with its phase and with the rows it
    /// received.
    pub closed spec fn wf(&self) -> bool {
        &&& (self.phase == ReadPhase::AwaitRoles || self.phase == ReadPhase::AwaitActor)
            ==> (self.meta matches Some(m) && meta_of_row(self.meta_row@) == Ok::<
            MovieMetadataView,
            CodecError,
        >(m@))
        &&& (self.phase == ReadPhase::AwaitMeta || self.phase == ReadPhase::AwaitRoles)
            ==> self.actor_rows@ == Seq::<RowView>::empty()
        &&& self.phase == ReadPhase::AwaitActor ==> {
            &&& self.roles@.len() < self.entries@.len()
            &&& roles_of_rows(self.role_rows@) == Ok::<
                Seq<(Seq<char>, Seq<Seq<char>>)>,
                CodecError,
            >(self.entries_view())
            &&& actors_of_rows(self.actor_rows@) matches Ok(actors) && actors.len()
                == self.roles@.len() && forall|i: int|
                0 <= i < self.roles@.len() ==> #[trigger] self.roles_view()[i] == RoleView {
                    actor: actors[i],
                    characters: self.entries_view()[i].1,
                }
        }
    }

    /// Starts reading the movie with this title, published in the year of
    /// `published_at`; the first request fetches its metadata row.
    pub fn new(title: &str, published_at: &Timestamp) -> (r: (MovieReader, ReadStep))
        ensures
            r.0.wf(),
            r.0.phase_view() == ReadPhase::AwaitMeta,
            r.0.title_view() == title@,
            r.0.published_at_view() == *published_at,
            asks_get(r.1, movie_pk(title@, published_at.year as int), meta_key()),
    {
        let (pk, sk) = movie_meta_key(title, published_at);
        let reader = MovieReader {
            phase: ReadPhase::AwaitMeta,
            title: title.to_owned(),
            published_at: *published_at,
            meta: None,
            entries: Vec::new(),
            roles: Vec::new(),
            meta_row: Ghost(Seq::empty()),
            role_rows: Ghost(Seq::empty()),
            actor_rows: Ghost(Seq::empty()),
        };
        (reader, ReadStep::Request(Request::Get { pk, sk }))
    }

    /// The phase of the read.
    pub fn phase(&self) -> (r: ReadPhase)
        ensures
            r == self.phase_view(),
    {
        self.phase
    }

    /// Whether the reader takes `reply` now (see [`accepts_reply`]).
    pub fn accepts(&self, reply: &Reply) -> (r: bool)
        ensures
            r == accepts_reply(self.phase_view(), *reply),
    {
        match self.phase {
            ReadPhase::AwaitMeta | ReadPhase::AwaitActor => match reply {
                Reply::Items(_) => false,
                _ => true,
            },
            ReadPhase::AwaitRoles => match reply {
                Reply::Item(_) => false,
                _ => true,
            },
            ReadPhase::Finished => false,
        }
    }

    fn finish(&mut self, result: Result<Movie, RepoError>) -> (r: ReadStep)
        ensures
            r == ReadStep::Done(result),
            final(self).phase_view() == ReadPhase::Finished,
            final(self).wf(),
            final(self).title_view() == old(self).title_view(),
            final(self).published_at_view() == old(self).published_at_view(),
            final(self).replies_view() == old(self).replies_view(),
    {
        self.phase = ReadPhase::Finished;
        ReadStep::Done(result)
    }
}

} // verus!

verus! {

impl MovieReader {
    /// Takes the reply to the last request and decides the next step.
    ///
    /// A failed primitive ends the read with `StorageUnavailable`. An absent
    /// metadata row or actor row ends it with `NotFound`. A row that does
    /// not decode, or decodes to another kind, ends it with that codec error.
    /// A query with no role rows gives the movie with no roles. Otherwise
    /// the actor row of each role is fetched in turn, under `actor::` and the
    /// name from the role row's sort key, and the movie is returned once the
    /// last one has been read.
    pub fn on_reply(&mut self, reply: Reply) -> (r: ReadStep)
        requires
            old(self).wf(),
            accepts_reply(old(self).phase_view(), reply),
        ensures
            final(self).wf(),
            final(self).title_view() == old(self).title_view(),
            final(self).published_at_view() == old(self).published_at_view(),
            (r is Done) == (final(self).phase_view() == ReadPhase::Finished),
            r matches ReadStep::Done(Ok(movie)) ==> reassemble(
                final(self).replies_view().0,
                final(self).replies_view().1,
                final(self).replies_view().2,
            ) == Ok::<MovieView, CodecError>(movie@),
            old(self).phase_view() == ReadPhase::AwaitMeta ==> (reply matches Reply::Item(Some(row))
                ==> final(self).replies_view().0 == row@),
            old(self).phase_view() == ReadPhase::AwaitRoles ==> (reply matches Reply::Items(rows)
                ==> final(self).replies_view() == (
                old(self).replies_view().0,
                row_views(rows@),
                old(self).replies_view().2,
            )),
            old(self).phase_view() == ReadPhase::AwaitActor ==> (reply matches Reply::Item(
                Some(row),
            ) ==> final(self).replies_view() == (
                old(self).replies_view().0,
                old(self).replies_view().1,
                old(self).replies_view().2.push(row@),
            )),
            reply matches Reply::Failed(msg) ==> (r matches ReadStep::Done(
                Err(RepoError::StorageUnavailable(m)),
            ) && m@ == msg@),
            old(self).phase_view() == ReadPhase::AwaitMeta ==> match reply {
                Reply::Item(None) => r matches ReadStep::Done(Err(RepoError::NotFound)),
                Reply::Item(Some(row)) => match meta_of_row(row@) {
                    Err(e) => done_with_codec_error(r, e),
                    Ok(m) => {
                        &&& final(self).phase_view() == ReadPhase::AwaitRoles
                        &&& final(self).meta_view() == Some(m)
                        &&& r matches ReadStep::Request(Request::Query { pk, sk_prefix })
                        &&& pk@ == movie_pk(
                            old(self).title_view(),
                            old(self).published_at_view().year as int,
                        )
                        &&& sk_prefix@ == actor_prefix()
                    },
                },
                _ => true,
            },
            old(self).phase_view() == ReadPhase::AwaitRoles ==> match reply {
                Reply::Items(rows) => match roles_of_rows(row_views(rows@)) {
                    Err(e) => done_with_codec_error(r, e),
                    Ok(es) => if es.len() == 0 {
                        done_with(r, MovieView { meta: old(self).meta_view()->0, roles: Seq::empty() })
                    } else {
                        &&& final(self).phase_view() == ReadPhase::AwaitActor
                        &&& final(self).meta_view() == old(self).meta_view()
                        &&& final(self).entries_view() == es
                        &&& final(self).roles_view() == Seq::<RoleView>::empty()
                        &&& asks_get(r, actor_prefix() + es[0].0, meta_key())
                    },
                },
                _ => true,
            },
            old(self).phase_view() == ReadPhase::AwaitActor ==> match reply {
                Reply::Item(None) => r matches ReadStep::Done(Err(RepoError::NotFound)),
                Reply::Item(Some(row)) => match actor_of_row(row@) {
                    Err(e) => done_with_codec_error(r, e),
                    Ok(a) => {
                        let k = old(self).roles_view().len() as int;
                        let roles = old(self).roles_view().push(
                            RoleView { actor: a, characters: old(self).entries_view()[k].1 },
                        );
                        if k + 1 == old(self).entries_view().len() {
                            done_with(r, MovieView { meta: old(self).meta_view()->0, roles })
                        } else {
                            &&& final(self).phase_view() == ReadPhase::AwaitActor
                            &&& final(self).meta_view() == old(self).meta_view()
                            &&& final(self).entries_view() == old(self).entries_view()
                            &&& final(self).roles_view() == roles
                            &&& asks_get(
                                r,
                                actor_prefix() + old(self).entries_view()[k + 1].0,
                                meta_key(),
                            )
                        }
                    },
                },
                _ => true,
            },
    {
        match reply {
            Reply::Failed(msg) => self.finish(Err(RepoError::StorageUnavailable(msg))),
            Reply::Item(item) => {
                let row = match item {
                    Some(row) => row,
                    None => return self.finish(Err(RepoError::NotFound)),
                };
                if self.phase == ReadPhase::AwaitMeta {
                    self.meta_row = Ghost(row@);
                    match metadata_from_row(&row) {
                        Err(e) => self.finish(Err(e)),
                        Ok(m) => {
                            self.meta = Some(m);
                            self.phase = ReadPhase::AwaitRoles;
                            let (pk, sk_prefix) = movie_actor_query_prefix(
                                self.title.as_str(),
                                &self.published_at,
                            );
                            ReadStep::Request(Request::Query { pk, sk_prefix })
                        },
                    }
                } else {
                    self.on_actor_row(&row)
                }
            },
            Reply::Items(rows) => match {
                self.role_rows = Ghost(row_views(rows@));
                roles_from_rows(&rows)
            } {
                Err(e) => self.finish(Err(e)),
                Ok(entries) => {
                    let ghost es = entries@.map_values(|e: (String, Vec<String>)| entry_view(e));
                    if entries.len() == 0 {
                        let meta = self.meta.take();
                        match meta {
                            Some(meta) => {
                                let movie = Movie { meta, roles: Vec::new() };
                                assert(movie@.roles =~= Seq::<RoleView>::empty());
                                proof {
                                    assert(actors_of_rows(self.actor_rows@) == Ok::<
                                        Seq<ActorView>,
                                        CodecError,
                                    >(Seq::empty()));
                                    let built = Seq::new(
                                        es.len(),
                                        |i: int| RoleView {
                                            actor: Seq::<ActorView>::empty()[i],
                                            characters: es[i].1,
                                        },
                                    );
                                    assert(built =~= movie@.roles);
                                }
                                self.finish(Ok(movie))
                            },
                            None => self.finish(Err(RepoError::NotFound)),
                        }
                    } else {
                        let (pk, sk) = actor_meta_key_by_name(entries[0].0.as_str());
                        assert(es[0] == entry_view(entries@[0]));
                        self.entries = entries;
                        self.roles = Vec::new();
                        self.phase = ReadPhase::AwaitActor;
                        assert(self.roles_view() =~= Seq::<RoleView>::empty());
                        ReadStep::Request(Request::Get { pk, sk })
                    }
                },
            },
        }
    }

    fn on_actor_row(&mut self, row: &Row) -> (r: ReadStep)
        requires
            old(self).wf(),
            old(self).phase_view() == ReadPhase::AwaitActor,
        ensures
            final(self).wf(),
            final(self).title_view() == old(self).title_view(),
            final(self).published_at_view() == old(self).published_at_view(),
            (r is Done) == (final(self).phase_view() == ReadPhase::Finished),
            r matches ReadStep::Done(Ok(movie)) ==> reassemble(
                final(self).replies_view().0,
                final(self).replies_view().1,
                final(self).replies_view().2,
            ) == Ok::<MovieView, CodecError>(movie@),
            final(self).replies_view() == (
                old(self).replies_view().0,
                old(self).replies_view().1,
                old(self).replies_view().2.push(row@),
            ),
            match actor_of_row(row@) {
                Err(e) => done_with_codec_error(r, e),
                Ok(a) => {
                    let k = old(self).roles_view().len() as int;
                    let roles = old(self).roles_view().push(
                        RoleView { actor: a, characters: old(self).entries_view()[k].1 },
                    );
                    if k + 1 == old(self).entries_view().len() {
                        done_with(r, MovieView { meta: old(self).meta_view()->0, roles })
                    } else {
                        &&& final(self).phase_view() == ReadPhase::AwaitActor
                        &&& final(self).meta_view() == old(self).meta_view()
                        &&& final(self).entries_view() == old(self).entries_view()
                        &&& final(self).roles_view() == roles
                        &&& asks_get(
                            r,
                            actor_prefix() + old(self).entries_view()[k + 1].0,
                            meta_key(),
                        )
                    }
                },
            },
    {
        let ghost old_actor_rows = self.actor_rows@;
        let ghost old_actors = actors_of_rows(old_actor_rows)->Ok_0;
        self.actor_rows = Ghost(self.actor_rows@.push(row@));
        assert(self.actor_rows@.drop_last() =~= old_actor_rows);
        let actor = match actor_from_row(row) {
            Ok(a) => a,
            Err(e) => return self.finish(Err(e)),
        };
        let ghost actors = old_actors.push(actor@);
        assert(actors_of_rows(self.actor_rows@) == Ok::<Seq<ActorView>, CodecError>(actors));
        let k = self.roles.len();
        assert(k < self.entries.len());
        let ghost old_roles = self.roles_view();
        let ghost entries = self.entries_view();
        assert(entries[k as int] == entry_view(self.entries@[k as int]));
        let role = Role { actor, characters: to_characters(&self.entries[k].1) };
        self.roles.push(role);
        assert(self.roles_view() =~= old_roles.push(role@));
        assert(forall|i: int|
            0 <= i < k ==> #[trigger] old_roles[i] == RoleView {
                actor: old_actors[i],
                characters: entries[i].1,
            });
        assert forall|i: int| 0 <= i < k + 1 implies #[trigger] self.roles_view()[i] == RoleView {
            actor: actors[i],
            characters: entries[i].1,
        } by {
            if i < k {
                assert(old_roles[i] == RoleView { actor: old_actors[i], characters: entries[i].1 });
            }
        }
        if k + 1 == self.entries.len() {
            let mut roles: Vec<Role> = Vec::new();
            core::mem::swap(&mut roles, &mut self.roles);
            let meta = self.meta.take();
            match meta {
                Some(meta) => {
                    let movie = Movie { meta, roles };
                    proof {
                        let rv = roles@.map_values(|r: Role| r@);
                        assert(rv =~= old_roles.push(role@));
                        let built = Seq::new(
                            entries.len(),
                            |i: int| RoleView { actor: actors[i], characters: entries[i].1 },
                        );
                        assert forall|i: int| 0 <= i < built.len() implies built[i] == rv[i] by {
                            assert(rv[i] == old_roles.push(role@)[i]);
                        }
                        assert(built =~= rv);
                    }
                    self.finish(Ok(movie))
                },
                None => self.finish(Err(RepoError::NotFound)),
            }
        } else {
            assert(entries[k + 1] == entry_view(self.entries@[k + 1]));
            let (pk, sk) = actor_meta_key_by_name(self.entries[k + 1].0.as_str());
            ReadStep::Request(Request::Get { pk, sk })
        }
    }
}

} // verus!

verus! {

/// The request that fetches an actor's metadata row, from the name as
/// embedded in keys (`{lastName} {firstName}`).
pub fn read_actor_request(name: &str) -> (r: Request)
    ensures
        r matches Request::Get { pk, sk } && pk@ == actor_prefix() + name@ && sk@ == meta_key(),
{
    let (pk, sk) = actor_meta_key_by_name(name);
    Request::Get { pk, sk }
}

/// An actor from the reply to its `Get`: `NotFound` when there is no row.
pub fn actor_from_reply(reply: Option<Row>) -> (r: Result<Actor, RepoError>)
    ensures
        match reply {
            None => r matches Err(RepoError::NotFound),
            Some(row) => match actor_of_row(row@) {
                Ok(a) => r matches Ok(x) && x@ == a,
                Err(e) => is_codec_error(r, e),
            },
        },
{
    match reply {
        None => Err(RepoError::NotFound),
        Some(row) => actor_from_row(&row),
    }
}

/// A movie's metadata from the reply to its `Get`: `NotFound` when there is
/// no row.
pub fn metadata_from_reply(reply: Option<Row>) -> (r: Result<MovieMetadata, RepoError>)
    ensures
        match reply {
            None => r matches Err(RepoError::NotFound),
            Some(row) => match meta_of_row(row@) {
                Ok(m) => r matches Ok(x) && x@ == m,
                Err(e) => is_codec_error(r, e),
            },
        },
{
    match reply {
        None => Err(RepoError::NotFound),
        Some(row) => metadata_from_row(&row),
    }
}

} // verus!
