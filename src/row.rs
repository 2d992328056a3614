//! Generic rows as stored: a bag of named fields. Typed rows are written
//! into bags and read back from them by a strict decoder.

use crate::data::texts;
use crate::dynamo::{
    payload_of, row_kind_of, ActorKindItem, CodecError, DynamoTableItem, DynamoTableItemKind,
    DynamoTableRowKind, ItemView, MovieKindItem, PayloadView,
};
use crate::option::OptionMutExt;
use crate::text::text_eq;
use crate::time::{format_rfc3339, parse_rfc3339, parsed_rfc3339, rfc3339_text};
use vstd::prelude::*;

verus! {

/// A stored field value.
#[derive(Clone, Debug)]
pub enum FieldValue {
    Text(String),
    TextList(Vec<String>),
    Number(i64),
    Null,
}

/// The abstract value of a [`FieldValue`].
pub enum FieldValueView {
    Text(Seq<char>),
    TextList(Seq<Seq<char>>),
    Number(int),
    Null,
}

impl View for FieldValue {
    type V = FieldValueView;

    open spec fn view(&self) -> FieldValueView {
        match self {
            FieldValue::Text(s) => FieldValueView::Text(s@),
            FieldValue::TextList(l) => FieldValueView::TextList(texts(l@)),
            FieldValue::Number(n) => FieldValueView::Number(*n as int),
            FieldValue::Null => FieldValueView::Null,
        }
    }
}

/// A named field of a row.
#[derive(Clone, Debug)]
pub struct Field {
    pub name: String,
    pub value: FieldValue,
}

/// The abstract value of a row: its fields in order, as (name, value).
pub type RowView = Seq<(Seq<char>, FieldValueView)>;

/// A bag of named fields. When a name occurs more than once, the last
/// occurrence counts, as when the fields are inserted into a map in order.
#[derive(Clone, Debug)]
pub struct Row {
    pub fields: Vec<Field>,
}

impl View for Row {
    type V = RowView;

    open spec fn view(&self) -> RowView {
        self.fields@.map_values(|f: Field| (f.name@, f.value@))
    }
}

/// The value of the last field named `name`, if any.
pub open spec fn lookup(row: RowView, name: Seq<char>) -> Option<FieldValueView>
    decreases row.len(),
{
    if row.len() == 0 {
        None
    } else if row.last().0 == name {
        Some(row.last().1)
    } else {
        lookup(row.drop_last(), name)
    }
}

/// The names of the fields that rows may hold.
#[derive(Clone, Copy, Debug, PartialEq, Eq, Structural)]
pub enum FieldName {
    Pk,
    Sk,
    Title,
    ImdbId,
    PublishedAt,
    PublishedYear,
    Characters,
    LastName,
    FirstName,
}

/// The text of a field name.
pub open spec fn name_text(n: FieldName) -> Seq<char> {
    match n {
        FieldName::Pk => seq!['p', 'k'],
        FieldName::Sk => seq!['s', 'k'],
        FieldName::Title => seq!['t', 'i', 't', 'l', 'e'],
        FieldName::ImdbId => seq!['i', 'm', 'd', 'b', '_', 'i', 'd'],
        FieldName::PublishedAt => seq![
            'p', 'u', 'b', 'l', 'i', 's', 'h', 'e', 'd', '_', 'a', 't',
        ],
        FieldName::PublishedYear => seq![
            'p', 'u', 'b', 'l', 'i', 's', 'h', 'e', 'd', '_', 'y', 'e', 'a', 'r',
        ],
        FieldName::Characters => seq!['c', 'h', 'a', 'r', 'a', 'c', 't', 'e', 'r', 's'],
        FieldName::LastName => seq!['l', 'a', 's', 't', '_', 'n', 'a', 'm', 'e'],
        FieldName::FirstName => seq!['f', 'i', 'r', 's', 't', '_', 'n', 'a', 'm', 'e'],
    }
}

impl FieldName {
    /// The text of this field name.
    pub fn as_str(&self) -> (r: &'static str)
        ensures
            r@ == name_text(*self),
    {
        match self {
            FieldName::Pk => {
                proof { reveal_strlit("pk"); }
                "pk"
            },
            FieldName::Sk => {
                proof { reveal_strlit("sk"); }
                "sk"
            },
            FieldName::Title => {
                proof { reveal_strlit("title"); }
                "title"
            },
            FieldName::ImdbId => {
                proof { reveal_strlit("imdb_id"); }
                "imdb_id"
            },
            FieldName::PublishedAt => {
                proof { reveal_strlit("published_at"); }
                "published_at"
            },
            FieldName::PublishedYear => {
                proof { reveal_strlit("published_year"); }
                "published_year"
            },
            FieldName::Characters => {
                proof { reveal_strlit("characters"); }
                "characters"
            },
            FieldName::LastName => {
                proof { reveal_strlit("last_name"); }
                "last_name"
            },
            FieldName::FirstName => {
                proof { reveal_strlit("first_name"); }
                "first_name"
            },
        }
    }
}

/// The value of the last field with the given name.
pub open spec fn field(row: RowView, n: FieldName) -> Option<FieldValueView> {
    lookup(row, name_text(n))
}

/// Whether a row of kind `kind` may hold a field named `name`: the keys,
/// the derived `published_year` (ignored on read), and the kind's own fields.
pub open spec fn legal_name(kind: DynamoTableRowKind, name: Seq<char>) -> bool {
    ||| name == name_text(FieldName::Pk)
    ||| name == name_text(FieldName::Sk)
    ||| name == name_text(FieldName::PublishedYear)
    ||| match kind {
        DynamoTableRowKind::MovieMeta => name == name_text(FieldName::Title) || name == name_text(
            FieldName::ImdbId,
        ) || name == name_text(FieldName::PublishedAt),
        DynamoTableRowKind::MovieActor => name == name_text(FieldName::Characters),
        DynamoTableRowKind::ActorMeta => name == name_text(FieldName::LastName) || name
            == name_text(FieldName::FirstName),
    }
}

/// Every field of the row may stand in a row of kind `kind`.
pub open spec fn all_legal(row: RowView, kind: DynamoTableRowKind) -> bool {
    forall|i: int| 0 <= i < row.len() ==> legal_name(kind, #[trigger] row[i].0)
}

/// The text of a field, when the field is there and holds text.
pub open spec fn text_field(row: RowView, n: FieldName) -> Option<Seq<char>> {
    match field(row, n) {
        Some(FieldValueView::Text(s)) => Some(s),
        _ => None,
    }
}

/// The payload of a row of kind `kind` whose field names are all legal.
pub open spec fn decode_payload(row: RowView, kind: DynamoTableRowKind) -> Result<
    PayloadView,
    CodecError,
> {
    match kind {
        DynamoTableRowKind::MovieMeta => {
            match (text_field(row, FieldName::Title), text_field(row, FieldName::PublishedAt)) {
                (Some(title), Some(at)) => match parsed_rfc3339(at) {
                    Some(published_at) => match field(row, FieldName::ImdbId) {
                        None | Some(FieldValueView::Null) => Ok(
                            PayloadView::MovieMeta { title, published_at, imdb_id: None },
                        ),
                        Some(FieldValueView::Text(id)) => Ok(
                            PayloadView::MovieMeta { title, published_at, imdb_id: Some(id) },
                        ),
                        _ => Err(CodecError::FieldMismatch),
                    },
                    None => Err(CodecError::FieldMismatch),
                },
                _ => Err(CodecError::FieldMismatch),
            }
        },
        DynamoTableRowKind::MovieActor => match field(row, FieldName::Characters) {
            Some(FieldValueView::TextList(characters)) => Ok(
                PayloadView::MovieActor { characters },
            ),
            _ => Err(CodecError::FieldMismatch),
        },
        DynamoTableRowKind::ActorMeta => match (
            text_field(row, FieldName::LastName),
            text_field(row, FieldName::FirstName),
        ) {
            (Some(last_name), Some(first_name)) => Ok(
                PayloadView::ActorMeta { last_name, first_name },
            ),
            _ => Err(CodecError::FieldMismatch),
        },
    }
}

/// Decoding a row: both keys must be there (`MissingKey`) and hold text
/// (`FieldMismatch`); the keys decide the kind (`UnknownRowKind`); every field
/// must be legal for that kind (`UnexpectedField`); then the kind's fields
/// are read (`FieldMismatch` when one is absent or of the wrong shape).
pub open spec fn decode_row(row: RowView) -> Result<ItemView, CodecError> {
    match (field(row, FieldName::Pk), field(row, FieldName::Sk)) {
        (Some(pkv), Some(skv)) => match (pkv, skv) {
            (FieldValueView::Text(pk), FieldValueView::Text(sk)) => match row_kind_of(pk, sk) {
                None => Err(CodecError::UnknownRowKind),
                Some(kind) => if !all_legal(row, kind) {
                    Err(CodecError::UnexpectedField)
                } else {
                    match decode_payload(row, kind) {
                        Ok(payload) => Ok(ItemView { pk, sk, payload }),
                        Err(e) => Err(e),
                    }
                },
            },
            _ => Err(CodecError::FieldMismatch),
        },
        _ => Err(CodecError::MissingKey),
    }
}

/// The view of a decoding result.
pub open spec fn decoded_view(r: Result<DynamoTableItem, CodecError>) -> Result<
    ItemView,
    CodecError,
> {
    match r {
        Ok(item) => Ok(item@),
        Err(e) => Err(e),
    }
}

impl Row {
    /// A row with no fields.
    pub fn new() -> (r: Row)
        ensures
            r@ == Seq::<(Seq<char>, FieldValueView)>::empty(),
    {
        let r = Row { fields: Vec::new() };
        assert(r@ =~= Seq::<(Seq<char>, FieldValueView)>::empty());
        r
    }

    /// Appends a field; it hides any earlier field of the same name.
    pub fn insert(&mut self, name: &str, value: FieldValue)
        ensures
            final(self)@ == old(self)@.push((name@, value@)),
    {
        let f = Field { name: name.to_owned(), value };
        self.fields.push(f);
        assert(final(self)@ =~= old(self)@.push((name@, value@)));
    }

    /// The value of the last field named `name`.
    pub fn get(&self, name: &str) -> (r: Option<&FieldValue>)
        ensures
            match r {
                Some(v) => lookup(self@, name@) == Some(v@),
                None => lookup(self@, name@) is None,
            },
    {
        let mut i = self.fields.len();
        assert(self@.take(i as int) =~= self@);
        while i > 0
            invariant
                i <= self.fields@.len(),
                lookup(self@, name@) == lookup(self@.take(i as int), name@),
            decreases i,
        {
            i -= 1;
            assert(self@.take(i + 1).drop_last() =~= self@.take(i as int));
            if text_eq(self.fields[i].name.as_str(), name) {
                return Some(&self.fields[i].value);
            }
        }
        None
    }
}

fn legal(kind: DynamoTableRowKind, name: &str) -> (r: bool)
    ensures
        r == legal_name(kind, name@),
{
    if text_eq(name, FieldName::Pk.as_str()) || text_eq(name, FieldName::Sk.as_str())
        || text_eq(name, FieldName::PublishedYear.as_str()) {
        return true;
    }
    match kind {
        DynamoTableRowKind::MovieMeta => text_eq(name, FieldName::Title.as_str()) || text_eq(
            name,
            FieldName::ImdbId.as_str(),
        ) || text_eq(name, FieldName::PublishedAt.as_str()),
        DynamoTableRowKind::MovieActor => text_eq(name, FieldName::Characters.as_str()),
        DynamoTableRowKind::ActorMeta => text_eq(name, FieldName::LastName.as_str()) || text_eq(
            name,
            FieldName::FirstName.as_str(),
        ),
    }
}

fn check_fields(row: &Row, kind: DynamoTableRowKind) -> (r: bool)
    ensures
        r == all_legal(row@, kind),
{
    let mut i: usize = 0;
    while i < row.fields.len()
        invariant
            i <= row.fields@.len(),
            forall|k: int| 0 <= k < i ==> legal_name(kind, #[trigger] row@[k].0),
        decreases row.fields@.len() - i,
    {
        if !legal(kind, row.fields[i].name.as_str()) {
            assert(!legal_name(kind, row@[i as int].0));
            return false;
        }
        i += 1;
    }
    true
}

fn text_of(row: &Row, n: FieldName) -> (r: Option<&String>)
    ensures
        match r {
            Some(s) => text_field(row@, n) == Some(s@),
            None => text_field(row@, n) is None,
        },
{
    match row.get(n.as_str()) {
        Some(FieldValue::Text(s)) => Some(s),
        _ => None,
    }
}

fn owned(text: Option<&String>) -> (r: Option<String>)
    ensures
        match text {
            Some(s) => r matches Some(c) && c@ == s@,
            None => r is None,
        },
{
    let mut held = text;
    held.mutate(|s: &String| -> (c: Option<String>)
        ensures
            c matches Some(t) && t@ == s@,
        { Some(s.clone()) })
}

fn decode_payload_exec(row: &Row, kind: DynamoTableRowKind) -> (r: Result<
    DynamoTableItemKind,
    CodecError,
>)
    ensures
        match r {
            Ok(k) => decode_payload(row@, kind) == Ok::<PayloadView, CodecError>(
                payload_of(k),
            ),
            Err(e) => decode_payload(row@, kind) == Err::<PayloadView, CodecError>(e),
        },
{
    match kind {
        DynamoTableRowKind::MovieMeta => {
            let title = match text_of(row, FieldName::Title) {
                Some(t) => t.clone(),
                None => return Err(CodecError::FieldMismatch),
            };
            let at = match text_of(row, FieldName::PublishedAt) {
                Some(a) => a,
                None => return Err(CodecError::FieldMismatch),
            };
            let published_at = match parse_rfc3339(at.as_str()) {
                Some(t) => t,
                None => return Err(CodecError::FieldMismatch),
            };
            let imdb_id = match row.get(FieldName::ImdbId.as_str()) {
                None => None,
                Some(FieldValue::Null) => None,
                Some(FieldValue::Text(id)) => owned(Some(id)),
                Some(_) => return Err(CodecError::FieldMismatch),
            };
            Ok(DynamoTableItemKind::Movie { kind: MovieKindItem::Meta { title, published_at, imdb_id } })
        },
        DynamoTableRowKind::MovieActor => match row.get(FieldName::Characters.as_str()) {
            Some(FieldValue::TextList(l)) => Ok(
                DynamoTableItemKind::Movie { kind: MovieKindItem::Actor { characters: l.clone() } },
            ),
            _ => Err(CodecError::FieldMismatch),
        },
        DynamoTableRowKind::ActorMeta => {
            let last_name = match text_of(row, FieldName::LastName) {
                Some(t) => t.clone(),
                None => return Err(CodecError::FieldMismatch),
            };
            let first_name = match text_of(row, FieldName::FirstName) {
                Some(t) => t.clone(),
                None => return Err(CodecError::FieldMismatch),
            };
            Ok(DynamoTableItemKind::Actor { kind: ActorKindItem::Meta { last_name, first_name } })
        },
    }
}

} // verus!

verus! {

/// A typed row that can be written: a metadata row's timestamp names an
/// existing instant.
pub open spec fn item_wf(item: ItemView) -> bool {
    match item.payload {
        PayloadView::MovieMeta { published_at, .. } => published_at.wf(),
        _ => true,
    }
}

/// The stored value of an optional text: the text, or null.
pub open spec fn opt_value(o: Option<Seq<char>>) -> FieldValueView {
    match o {
        Some(s) => FieldValueView::Text(s),
        None => FieldValueView::Null,
    }
}

/// The fields a typed row is written as, in this order: the keys, then the
/// kind's own fields; a movie's metadata row also carries `published_year`.
pub open spec fn row_of(item: ItemView) -> RowView {
    let keys = seq![
        (name_text(FieldName::Pk), FieldValueView::Text(item.pk)),
        (name_text(FieldName::Sk), FieldValueView::Text(item.sk)),
    ];
    match item.payload {
        PayloadView::MovieMeta { title, published_at, imdb_id } => keys + seq![
            (name_text(FieldName::Title), FieldValueView::Text(title)),
            (name_text(FieldName::ImdbId), opt_value(imdb_id)),
            (name_text(FieldName::PublishedAt), FieldValueView::Text(rfc3339_text(published_at))),
            (name_text(FieldName::PublishedYear), FieldValueView::Number(published_at.year as int)),
        ],
        PayloadView::MovieActor { characters } => keys + seq![
            (name_text(FieldName::Characters), FieldValueView::TextList(characters)),
        ],
        PayloadView::ActorMeta { last_name, first_name } => keys + seq![
            (name_text(FieldName::LastName), FieldValueView::Text(last_name)),
            (name_text(FieldName::FirstName), FieldValueView::Text(first_name)),
        ],
    }
}

proof fn lemma_name_texts_distinct()
    ensures
        forall|a: FieldName, b: FieldName| #[trigger] name_text(a) == #[trigger] name_text(b) ==> a == b,
{
    assert(name_text(FieldName::Pk)[0] != name_text(FieldName::Sk)[0]);
    assert(name_text(FieldName::Characters)[0] != name_text(FieldName::FirstName)[0]);
    assert forall|a: FieldName, b: FieldName| #[trigger]
        name_text(a) == #[trigger] name_text(b) implies a == b by {
        if a != b {
            assert(name_text(a).len() != name_text(b).len() || name_text(a)[0] != name_text(b)[0]);
        }
    }
}

/// Reading back the fields a well-formed typed row is written as gives the
/// typed row, when the timestamp text reads back to the timestamp.
proof fn lemma_decode_row_of(item: ItemView)
    requires
        row_kind_of(item.pk, item.sk) == Some(item.payload.kind()),
        item.payload matches PayloadView::MovieMeta { published_at, .. } ==> parsed_rfc3339(
            rfc3339_text(published_at),
        ) == Some(published_at),
    ensures
        decode_row(row_of(item)) == Ok::<ItemView, CodecError>(item),
{
    lemma_name_texts_distinct();
    let row = row_of(item);
    reveal_with_fuel(lookup, 7);
    assert(field(row, FieldName::Pk) == Some(FieldValueView::Text(item.pk)));
    assert(field(row, FieldName::Sk) == Some(FieldValueView::Text(item.sk)));
    assert(all_legal(row, item.payload.kind()));
    match item.payload {
        PayloadView::MovieMeta { title, published_at, imdb_id } => {
            assert(text_field(row, FieldName::Title) == Some(title));
            assert(text_field(row, FieldName::PublishedAt) == Some(rfc3339_text(published_at)));
            assert(field(row, FieldName::ImdbId) == Some(opt_value(imdb_id)));
        },
        PayloadView::MovieActor { characters } => {
            assert(field(row, FieldName::Characters) == Some(
                FieldValueView::TextList(characters),
            ));
        },
        PayloadView::ActorMeta { last_name, first_name } => {
            assert(text_field(row, FieldName::LastName) == Some(last_name));
            assert(text_field(row, FieldName::FirstName) == Some(first_name));
        },
    }
}

impl DynamoTableItem {
    /// The fields this row is stored as (see [`row_of`]). Decoding them gives
    /// this row back whenever its keys resolve to its kind.
    pub fn serialize(&self) -> (r: Row)
        requires
            item_wf(self@),
        ensures
            r@ == row_of(self@),
            row_kind_of(self@.pk, self@.sk) == Some(self@.payload.kind()) ==> decode_row(r@)
                == Ok::<ItemView, CodecError>(self@),
    {
        let mut row = Row::new();
        row.insert(FieldName::Pk.as_str(), FieldValue::Text(self.pk.clone()));
        row.insert(FieldName::Sk.as_str(), FieldValue::Text(self.sk.clone()));
        match &self.kind {
            DynamoTableItemKind::Movie { kind: MovieKindItem::Meta { title, published_at, imdb_id } } => {
                row.insert(FieldName::Title.as_str(), FieldValue::Text(title.clone()));
                let id = match imdb_id {
                    Some(s) => FieldValue::Text(s.clone()),
                    None => FieldValue::Null,
                };
                row.insert(FieldName::ImdbId.as_str(), id);
                let at = format_rfc3339(published_at);
                row.insert(FieldName::PublishedAt.as_str(), FieldValue::Text(at));
                row.insert(
                    FieldName::PublishedYear.as_str(),
                    FieldValue::Number(published_at.year as i64),
                );
            },
            DynamoTableItemKind::Movie { kind: MovieKindItem::Actor { characters } } => {
                row.insert(FieldName::Characters.as_str(), FieldValue::TextList(characters.clone()));
            },
            DynamoTableItemKind::Actor { kind: ActorKindItem::Meta { last_name, first_name } } => {
                row.insert(FieldName::LastName.as_str(), FieldValue::Text(last_name.clone()));
                row.insert(FieldName::FirstName.as_str(), FieldValue::Text(first_name.clone()));
            },
        }
        assert(row@ =~= row_of(self@));
        proof {
            if row_kind_of(self@.pk, self@.sk) == Some(self@.payload.kind()) {
                lemma_decode_row_of(self@);
            }
        }
        row
    }

    /// Decodes a row read back from storage (see [`decode_row`]).
    pub fn deserialize(row: &Row) -> (r: Result<DynamoTableItem, CodecError>)
        ensures
            decoded_view(r) == decode_row(row@),
    {
        let pkv = match row.get(FieldName::Pk.as_str()) {
            Some(v) => v,
            None => return Err(CodecError::MissingKey),
        };
        let skv = match row.get(FieldName::Sk.as_str()) {
            Some(v) => v,
            None => return Err(CodecError::MissingKey),
        };
        let (pk, sk) = match (pkv, skv) {
            (FieldValue::Text(p), FieldValue::Text(s)) => (p, s),
            _ => return Err(CodecError::FieldMismatch),
        };
        let kind = match DynamoTableRowKind::get_row_kind_by_keys(pk.as_str(), sk.as_str()) {
            Ok(k) => k,
            Err(e) => return Err(e),
        };
        if !check_fields(row, kind) {
            return Err(CodecError::UnexpectedField);
        }
        match decode_payload_exec(row, kind) {
            Ok(payload) => Ok(DynamoTableItem { pk: pk.clone(), sk: sk.clone(), kind: payload }),
            Err(e) => Err(e),
        }
    }
}

} // verus!

verus! {

/// The decoder takes a row's kind from its keys alone: a decoded row's
/// payload is of the kind that its keys resolve to.
pub proof fn lemma_decoded_kind_from_keys(row: RowView)
    ensures
        decode_row(row) matches Ok(item) ==> row_kind_of(item.pk, item.sk) == Some(
            item.payload.kind(),
        ),
{
}

} // verus!

verus! {

/// Whether a row of kind `kind` must hold a field named `n`.
pub open spec fn required_field(kind: DynamoTableRowKind, n: FieldName) -> bool {
    match kind {
        DynamoTableRowKind::MovieMeta => n == FieldName::Title || n == FieldName::PublishedAt,
        DynamoTableRowKind::MovieActor => n == FieldName::Characters,
        DynamoTableRowKind::ActorMeta => n == FieldName::LastName || n == FieldName::FirstName,
    }
}

/// A row with text keys that resolve to `kind`.
pub open spec fn keys_resolve_to(row: RowView, kind: DynamoTableRowKind) -> bool {
    field(row, FieldName::Pk) matches Some(FieldValueView::Text(pk)) && field(
        row,
        FieldName::Sk,
    ) matches Some(FieldValueView::Text(sk)) && row_kind_of(pk, sk) == Some(kind)
}

/// Adding to a row of some kind a field that the kind does not have (any
/// name but the keys, `published_year` and the kind's own fields) makes
/// decoding fail with `UnexpectedField`.
pub proof fn lemma_extra_field_is_unexpected(
    row: RowView,
    kind: DynamoTableRowKind,
    name: Seq<char>,
    value: FieldValueView,
)
    requires
        keys_resolve_to(row, kind),
        !legal_name(kind, name),
    ensures
        decode_row(row.push((name, value))) == Err::<ItemView, CodecError>(
            CodecError::UnexpectedField,
        ),
{
    let extended = row.push((name, value));
    assert(extended.drop_last() =~= row);
    assert(name != name_text(FieldName::Pk));
    assert(name != name_text(FieldName::Sk));
    assert(field(extended, FieldName::Pk) == field(row, FieldName::Pk));
    assert(field(extended, FieldName::Sk) == field(row, FieldName::Sk));
    assert(!legal_name(kind, extended[row.len() as int].0));
}

/// A row of some kind that holds only fields the kind allows, but lacks one
/// that the kind requires, fails to decode with `FieldMismatch`.
pub proof fn lemma_missing_field_is_mismatch(row: RowView, kind: DynamoTableRowKind, n: FieldName)
    requires
        keys_resolve_to(row, kind),
        all_legal(row, kind),
        required_field(kind, n),
        field(row, n) is None,
    ensures
        decode_row(row) == Err::<ItemView, CodecError>(CodecError::FieldMismatch),
{
}

} // verus!
