use movie_table::data::{Actor, Character, Movie, MovieMetadata, Role};
use movie_table::dynamo::{DynamoTableItem, DynamoTableItemKind, MovieKindItem, ActorKindItem};
use movie_table::row::{FieldValue, Row};
use movie_table::time::Timestamp;

fn row_to_json(row: &Row) -> String {
    let mut parts: Vec<String> = Vec::new();
    for f in &row.fields {
        let value = match &f.value {
            FieldValue::Text(s) => serde_json::to_string(s).unwrap(),
            FieldValue::TextList(l) => serde_json::to_string(l).unwrap(),
            FieldValue::Number(n) => n.to_string(),
            FieldValue::Null => "null".to_owned(),
        };
        parts.push(format!("{}:{}", serde_json::to_string(&f.name).unwrap(), value));
    }
    format!("{{{}}}", parts.join(","))
}

fn json_to_row(data: &str) -> Row {
    let value: serde_json::Value = serde_json::from_str(data).unwrap();
    let mut row = Row::new();
    for (name, v) in value.as_object().unwrap() {
        let field = match v {
            serde_json::Value::String(s) => FieldValue::Text(s.clone()),
            serde_json::Value::Array(a) => FieldValue::TextList(
                a.iter().map(|x| x.as_str().unwrap().to_owned()).collect(),
            ),
            serde_json::Value::Number(n) => FieldValue::Number(n.as_i64().unwrap()),
            _ => FieldValue::Null,
        };
        row.insert(name, field);
    }
    row
}

fn irishman() -> Movie {
    Movie {
        meta: MovieMetadata {
            title: "The Irishman".to_owned(),
            imdb_id: Some("tt1302006".to_owned()),
            published_at: Timestamp::parse("2019-09-27T00:00:00Z").unwrap(),
        },
        roles: vec![
            Role {
                actor: Actor { last_name: "Deniro".to_owned(), first_name: "Robert".to_owned() },
                characters: vec![Character { name: "Frank Sheeran".to_owned() }],
            },
            Role {
                actor: Actor { last_name: "Pacino".to_owned(), first_name: "Al".to_owned() },
                characters: vec![Character { name: "Jimmy Hoffa".to_owned() }],
            },
        ],
    }
}

#[test]
fn data_test_dynamotableitem_serialization() {
    let movie = irishman();
    let table_items = DynamoTableItem::new_movie(&movie)
        .iter()
        .map(|x| row_to_json(&x.serialize()))
        .collect::<Vec<String>>();
    let expected_table_items = vec![
        r#"{"pk":"movie::The Irishman#2019","sk":"meta","title":"The Irishman","imdb_id":"tt1302006","published_at":"2019-09-27T00:00:00Z","published_year":2019}"#,
        r#"{"pk":"movie::The Irishman#2019","sk":"actor::Deniro Robert","characters":["Frank Sheeran"]}"#,
        r#"{"pk":"movie::The Irishman#2019","sk":"actor::Pacino Al","characters":["Jimmy Hoffa"]}"#,
        r#"{"pk":"actor::Deniro Robert","sk":"meta","last_name":"Deniro","first_name":"Robert"}"#,
        r#"{"pk":"actor::Pacino Al","sk":"meta","last_name":"Pacino","first_name":"Al"}"#,
    ];
    assert_eq!(expected_table_items, table_items);
}

#[test]
fn data_test_deserialize_movie_meta() {
    let data = r#"{"pk":"movie::The Irishman#2019","sk":"meta","title":"The Irishman","imdb_id":"tt1302006","published_at":"2019-09-27T00:00:00Z","published_year":2019}"#;
    let item = DynamoTableItem::deserialize(&json_to_row(data)).unwrap();
    println!("{:?}", item);
    assert_eq!(item.pk, "movie::The Irishman#2019");
    assert_eq!(item.sk, "meta");
    match item.kind {
        DynamoTableItemKind::Movie { kind: MovieKindItem::Meta { title, published_at, imdb_id } } => {
            assert_eq!(title, "The Irishman");
            assert_eq!(imdb_id, Some("tt1302006".to_owned()));
            assert_eq!(published_at, Timestamp::new(2019, 9, 27, 0, 0, 0, 0).unwrap());
        }
        other => panic!("unexpected kind {:?}", other),
    }
}

#[test]
fn data_test_deserialize_movie_actor() {
    let data = r#"{"pk":"movie::The Irishman#2019","sk":"actor::Deniro Robert","characters":["Frank Sheeran"]}"#;
    let item = DynamoTableItem::deserialize(&json_to_row(data)).unwrap();
    println!("{:?}", item);
    assert_eq!(item.sk, "actor::Deniro Robert");
    match item.kind {
        DynamoTableItemKind::Movie { kind: MovieKindItem::Actor { characters } } => {
            assert_eq!(characters, vec!["Frank Sheeran".to_owned()]);
        }
        other => panic!("unexpected kind {:?}", other),
    }
}

#[test]
fn data_test_deserialize_actor_meta() {
    let data = r#"{"pk":"actor::Deniro Robert","sk":"meta","last_name":"Deniro","first_name":"Robert"}"#;
    let item = DynamoTableItem::deserialize(&json_to_row(data)).unwrap();
    println!("{:?}", item);
    assert_eq!(item.pk, "actor::Deniro Robert");
    match item.kind {
        DynamoTableItemKind::Actor { kind: ActorKindItem::Meta { last_name, first_name } } => {
            assert_eq!(last_name, "Deniro");
            assert_eq!(first_name, "Robert");
        }
        other => panic!("unexpected kind {:?}", other),
    }
}
