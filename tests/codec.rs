use movie_table::dynamo::{
    ActorKindItem, CodecError, DynamoTableItem, DynamoTableItemKind, DynamoTableRowKind,
    MovieKindItem,
};
use movie_table::keys::{
    actor_meta_key, actor_meta_key_by_name, movie_actor_key, movie_actor_query_prefix,
    movie_meta_key,
};
use movie_table::option::OptionMutExt;
use movie_table::row::{FieldName, FieldValue, Row};
use movie_table::time::Timestamp;

fn text(s: &str) -> FieldValue {
    FieldValue::Text(s.to_owned())
}

fn movie_meta_row() -> Row {
    let mut row = Row::new();
    row.insert("pk", text("movie::Heat#1995"));
    row.insert("sk", text("meta"));
    row.insert("title", text("Heat"));
    row.insert("imdb_id", text("tt0113277"));
    row.insert("published_at", text("1995-12-15T00:00:00Z"));
    row
}

fn actor_meta_row() -> Row {
    let mut row = Row::new();
    row.insert("pk", text("actor::Pacino Al"));
    row.insert("sk", text("meta"));
    row.insert("last_name", text("Pacino"));
    row.insert("first_name", text("Al"));
    row
}

fn kind_of(pk: &str, sk: &str) -> Result<DynamoTableRowKind, CodecError> {
    DynamoTableRowKind::get_row_kind_by_keys(pk, sk)
}

#[test]
fn resolver_accepts_the_three_shapes() {
    assert_eq!(kind_of("movie::Heat#1995", "meta"), Ok(DynamoTableRowKind::MovieMeta));
    assert_eq!(kind_of("movie::Heat#1995", "actor::Pacino Al"), Ok(DynamoTableRowKind::MovieActor));
    assert_eq!(kind_of("actor::Pacino Al", "meta"), Ok(DynamoTableRowKind::ActorMeta));
}

#[test]
fn resolver_rejects_other_pairs() {
    assert_eq!(kind_of("movie::Heat#1995", "metadata"), Err(CodecError::UnknownRowKind));
    assert_eq!(kind_of("movie::Heat#1995", "role::x"), Err(CodecError::UnknownRowKind));
    assert_eq!(kind_of("actor::Pacino Al", "metadata"), Err(CodecError::UnknownRowKind));
    assert_eq!(kind_of("actor::Pacino Al", "actor::Pacino Al"), Err(CodecError::UnknownRowKind));
    assert_eq!(kind_of("film::Heat#1995", "meta"), Err(CodecError::UnknownRowKind));
    assert_eq!(kind_of("", ""), Err(CodecError::UnknownRowKind));
}

#[test]
fn prefixes_of_each_kind() {
    assert_eq!(
        DynamoTableRowKind::MovieMeta.get_prefixes(),
        ("movie::".to_owned(), "meta".to_owned())
    );
    assert_eq!(
        DynamoTableRowKind::MovieActor.get_prefixes(),
        ("movie::".to_owned(), "actor::".to_owned())
    );
    assert_eq!(
        DynamoTableRowKind::ActorMeta.get_prefixes(),
        ("actor::".to_owned(), "meta".to_owned())
    );
}

#[test]
fn keys_of_each_kind() {
    let t = Timestamp::new(1995, 12, 15, 0, 0, 0, 0).unwrap();
    assert_eq!(movie_meta_key("Heat", &t), ("movie::Heat#1995".to_owned(), "meta".to_owned()));
    assert_eq!(
        movie_actor_key("Heat", &t, "De Niro", "Robert"),
        ("movie::Heat#1995".to_owned(), "actor::De Niro Robert".to_owned())
    );
    assert_eq!(
        actor_meta_key("De Niro", "Robert"),
        ("actor::De Niro Robert".to_owned(), "meta".to_owned())
    );
    assert_eq!(
        actor_meta_key_by_name("De Niro Robert"),
        ("actor::De Niro Robert".to_owned(), "meta".to_owned())
    );
    assert_eq!(
        movie_actor_query_prefix("Heat", &t),
        ("movie::Heat#1995".to_owned(), "actor::".to_owned())
    );
}

#[test]
fn key_year_digits() {
    let early = Timestamp::new(7, 1, 1, 0, 0, 0, 0).unwrap();
    assert_eq!(movie_meta_key("Old", &early).0, "movie::Old#7");
    let bc = Timestamp::new(-44, 3, 15, 0, 0, 0, 0).unwrap();
    assert_eq!(movie_meta_key("Caesar", &bc).0, "movie::Caesar#-44");
    let far = Timestamp::new(262142, 12, 31, 23, 59, 59, 0).unwrap();
    assert_eq!(movie_meta_key("Far", &far).0, "movie::Far#262142");
}

#[test]
fn decodes_movie_meta_without_imdb_id() {
    let mut row = movie_meta_row();
    row.insert("imdb_id", FieldValue::Null);
    let item = DynamoTableItem::deserialize(&row).unwrap();
    match item.kind {
        DynamoTableItemKind::Movie { kind: MovieKindItem::Meta { imdb_id, .. } } => {
            assert_eq!(imdb_id, None)
        }
        other => panic!("unexpected kind {:?}", other),
    }
    let mut bare = Row::new();
    bare.insert("pk", text("movie::Heat#1995"));
    bare.insert("sk", text("meta"));
    bare.insert("title", text("Heat"));
    bare.insert("published_at", text("1995-12-15T00:00:00Z"));
    assert!(DynamoTableItem::deserialize(&bare).is_ok());
}

#[test]
fn extra_field_is_unexpected() {
    let mut row = movie_meta_row();
    row.insert("rating", FieldValue::Number(5));
    assert_eq!(DynamoTableItem::deserialize(&row).unwrap_err(), CodecError::UnexpectedField);
}

#[test]
fn cross_kind_field_is_unexpected() {
    let mut row = actor_meta_row();
    row.insert("title", text("Heat"));
    assert_eq!(DynamoTableItem::deserialize(&row).unwrap_err(), CodecError::UnexpectedField);
    let mut row = movie_meta_row();
    row.insert("characters", FieldValue::TextList(vec!["Vincent Hanna".to_owned()]));
    assert_eq!(DynamoTableItem::deserialize(&row).unwrap_err(), CodecError::UnexpectedField);
}

#[test]
fn published_year_is_ignored() {
    let mut row = movie_meta_row();
    row.insert("published_year", FieldValue::Number(1900));
    let item = DynamoTableItem::deserialize(&row).unwrap();
    match item.kind {
        DynamoTableItemKind::Movie { kind: MovieKindItem::Meta { published_at, .. } } => {
            assert_eq!(published_at.year, 1995)
        }
        other => panic!("unexpected kind {:?}", other),
    }
}

#[test]
fn missing_required_field_is_a_mismatch() {
    let mut row = Row::new();
    row.insert("pk", text("actor::Pacino Al"));
    row.insert("sk", text("meta"));
    row.insert("last_name", text("Pacino"));
    assert_eq!(DynamoTableItem::deserialize(&row).unwrap_err(), CodecError::FieldMismatch);
    let mut row = Row::new();
    row.insert("pk", text("movie::Heat#1995"));
    row.insert("sk", text("actor::Pacino Al"));
    assert_eq!(DynamoTableItem::deserialize(&row).unwrap_err(), CodecError::FieldMismatch);
}

#[test]
fn wrong_shapes_are_mismatches() {
    let mut row = movie_meta_row();
    row.insert("published_at", text("the fifteenth of December"));
    assert_eq!(DynamoTableItem::deserialize(&row).unwrap_err(), CodecError::FieldMismatch);
    let mut row = movie_meta_row();
    row.insert("imdb_id", FieldValue::Number(113277));
    assert_eq!(DynamoTableItem::deserialize(&row).unwrap_err(), CodecError::FieldMismatch);
    let mut row = movie_meta_row();
    row.insert("pk", FieldValue::Number(1));
    assert_eq!(DynamoTableItem::deserialize(&row).unwrap_err(), CodecError::FieldMismatch);
}

#[test]
fn missing_key_and_unknown_kind() {
    let mut row = Row::new();
    row.insert("sk", text("meta"));
    assert_eq!(DynamoTableItem::deserialize(&row).unwrap_err(), CodecError::MissingKey);
    let mut row = Row::new();
    row.insert("pk", text("movie::Heat#1995"));
    assert_eq!(DynamoTableItem::deserialize(&row).unwrap_err(), CodecError::MissingKey);
    let mut row = actor_meta_row();
    row.insert("sk", text("profile"));
    assert_eq!(DynamoTableItem::deserialize(&row).unwrap_err(), CodecError::UnknownRowKind);
}

#[test]
fn later_field_hides_earlier() {
    let mut row = actor_meta_row();
    row.insert("first_name", text("Alfredo"));
    assert_eq!(row.get("first_name").map(|v| format!("{:?}", v)), Some(format!("{:?}", text("Alfredo"))));
    assert!(row.get("title").is_none());
    let item = DynamoTableItem::deserialize(&row).unwrap();
    match item.kind {
        DynamoTableItemKind::Actor { kind: ActorKindItem::Meta { first_name, .. } } => {
            assert_eq!(first_name, "Alfredo")
        }
        other => panic!("unexpected kind {:?}", other),
    }
}

#[test]
fn field_names() {
    assert_eq!(FieldName::PublishedYear.as_str(), "published_year");
    assert_eq!(FieldName::ImdbId.as_str(), "imdb_id");
}

#[test]
fn timestamp_validity() {
    assert!(Timestamp::new(2019, 2, 29, 0, 0, 0, 0).is_none());
    assert!(Timestamp::new(2020, 2, 29, 0, 0, 0, 0).is_some());
    assert!(Timestamp::new(1900, 2, 29, 0, 0, 0, 0).is_none());
    assert!(Timestamp::new(2000, 2, 29, 0, 0, 0, 0).is_some());
    assert!(Timestamp::new(2019, 4, 31, 0, 0, 0, 0).is_none());
    assert!(Timestamp::new(2019, 13, 1, 0, 0, 0, 0).is_none());
    assert!(Timestamp::new(2019, 1, 1, 24, 0, 0, 0).is_none());
    assert!(Timestamp::new(2019, 1, 1, 23, 59, 59, 1_500_000_000).is_some());
    assert!(Timestamp::new(2019, 1, 1, 23, 59, 58, 1_500_000_000).is_none());
    assert!(Timestamp::new(262143, 1, 1, 0, 0, 0, 0).is_none());
}

#[test]
fn timestamp_text_round_trip() {
    let t = Timestamp::new(2019, 9, 27, 12, 30, 5, 500_000_000).unwrap();
    assert_eq!(t.to_rfc3339(), "2019-09-27T12:30:05.500Z");
    assert_eq!(Timestamp::parse(&t.to_rfc3339()), Some(t));
    let far = Timestamp::new(10000, 1, 1, 0, 0, 0, 0).unwrap();
    assert_eq!(far.to_rfc3339(), "+10000-01-01T00:00:00Z");
    assert_eq!(Timestamp::parse(&far.to_rfc3339()), Some(far));
    assert_eq!(
        Timestamp::parse("2019-09-27T02:00:00+02:00"),
        Timestamp::new(2019, 9, 27, 0, 0, 0, 0)
    );
    assert_eq!(Timestamp::parse("yesterday"), None);
}

#[test]
fn mutate_takes_the_value() {
    let mut held: Option<u32> = Some(4);
    assert_eq!(held.mutate(|x| Some(x * 2)), Some(8));
    assert_eq!(held, None);
    let mut empty: Option<u32> = None;
    assert_eq!(empty.mutate(|x| Some(x * 2)), None);
}

#[test]
fn leap_second_and_early_years_round_trip() {
    let leap = Timestamp::new(2016, 12, 31, 23, 59, 59, 1_000_000_000).unwrap();
    assert_eq!(leap.to_rfc3339(), "2016-12-31T23:59:60Z");
    assert_eq!(Timestamp::parse(&leap.to_rfc3339()), Some(leap));
    let bc = Timestamp::new(-44, 3, 15, 0, 0, 0, 0).unwrap();
    assert_eq!(Timestamp::parse(&bc.to_rfc3339()), Some(bc));
}

#[test]
fn every_encoded_row_decodes_to_its_item() {
    let movie = movie_table::data::Movie {
        meta: movie_table::data::MovieMetadata {
            title: "Heat".to_owned(),
            imdb_id: None,
            published_at: Timestamp::new(1995, 12, 15, 20, 0, 0, 123_000).unwrap(),
        },
        roles: vec![movie_table::data::Role {
            actor: movie_table::data::Actor {
                last_name: "De Niro".to_owned(),
                first_name: "Robert".to_owned(),
            },
            characters: vec![],
        }],
    };
    for item in DynamoTableItem::new_movie(&movie) {
        let back = DynamoTableItem::deserialize(&item.serialize()).unwrap();
        assert_eq!(format!("{:?}", back), format!("{:?}", item));
    }
}
